use kzrk::ident::fresh_id;
use kzrk::models::message_board::MessageBoard;

#[test]
fn test_post_and_get_messages() {
    let mut board = MessageBoard::new(100);
    let author_id = fresh_id();

    let message = board
        .post_message(
            author_id,
            "TestPlayer".to_string(),
            "Hello world!".to_string(),
            "JFK".to_string(),
        )
        .unwrap();

    assert_eq!(message.content, "Hello world!");
    assert_eq!(message.airport_id, "JFK");

    let messages = board.get_messages("JFK", None);
    assert_eq!(messages.len(), 1);
    assert_eq!(messages[0].content, "Hello world!");
}

#[test]
fn test_message_limit() {
    let mut board = MessageBoard::new(3);
    let author_id = fresh_id();

    for i in 1..=5 {
        board
            .post_message(
                author_id,
                "TestPlayer".to_string(),
                format!("Message {}", i),
                "JFK".to_string(),
            )
            .unwrap();
    }

    assert_eq!(board.message_count(None), 3);
    let messages = board.get_messages("JFK", None);
    assert_eq!(messages[0].content, "Message 5");
}

#[test]
fn test_empty_message_error() {
    let mut board = MessageBoard::new(100);
    let author_id = fresh_id();

    let result = board.post_message(
        author_id,
        "TestPlayer".to_string(),
        "".to_string(),
        "JFK".to_string(),
    );

    assert!(result.is_err());
    assert_eq!(result.unwrap_err(), "Message content cannot be empty");
}

#[test]
fn test_long_message_error() {
    let mut board = MessageBoard::new(100);
    let author_id = fresh_id();
    let long_content = "a".repeat(501);

    let result = board.post_message(
        author_id,
        "TestPlayer".to_string(),
        long_content,
        "JFK".to_string(),
    );

    assert!(result.is_err());
    assert_eq!(
        result.unwrap_err(),
        "Message content cannot exceed 500 characters"
    );
}

#[test]
fn test_message_board_post_and_retrieve() {
    let mut board = MessageBoard::new(100);
    let player_id = fresh_id();
    let player_name = "TestPlayer".to_string();
    let content = "Hello, this is a test message!".to_string();
    let airport_id = "JFK".to_string();

    // Post a message
    let result = board.post_message(
        player_id,
        player_name.clone(),
        content.clone(),
        airport_id.clone(),
    );

    assert!(result.is_ok());
    let message = result.unwrap();
    assert_eq!(message.content, content);
    assert_eq!(message.author_name, player_name);
    assert_eq!(message.airport_id, airport_id);

    // Retrieve messages
    let messages = board.get_messages(&airport_id, None);
    assert_eq!(messages.len(), 1);
    assert_eq!(messages[0].content, content);
}

#[test]
fn test_message_board_multiple_airports() {
    let mut board = MessageBoard::new(100);
    let player_id = fresh_id();

    // Post messages at different airports
    board
        .post_message(
            player_id,
            "Player1".to_string(),
            "Message at JFK".to_string(),
            "JFK".to_string(),
        )
        .unwrap();

    board
        .post_message(
            player_id,
            "Player1".to_string(),
            "Message at LAX".to_string(),
            "LAX".to_string(),
        )
        .unwrap();

    board
        .post_message(
            player_id,
            "Player2".to_string(),
            "Another message at JFK".to_string(),
            "JFK".to_string(),
        )
        .unwrap();

    // Check messages at JFK
    let jfk_messages = board.get_messages("JFK", None);
    assert_eq!(jfk_messages.len(), 2);

    // Check messages at LAX
    let lax_messages = board.get_messages("LAX", None);
    assert_eq!(lax_messages.len(), 1);
    assert_eq!(lax_messages[0].content, "Message at LAX");
}

#[test]
fn test_message_board_capacity_limit() {
    let mut board = MessageBoard::new(3);
    let player_id = fresh_id();

    // Post 5 messages (exceeding the limit of 3)
    for i in 1..=5 {
        board
            .post_message(
                player_id,
                format!("Player{}", i),
                format!("Message {}", i),
                "JFK".to_string(),
            )
            .unwrap();
    }

    // Should only keep the 3 most recent messages
    let all_messages = board.get_all_messages(None);
    assert_eq!(all_messages.len(), 3);

    // The oldest messages should be removed
    let messages: Vec<String> = all_messages.iter().map(|m| m.content.clone()).collect();
    assert!(messages.contains(&"Message 3".to_string()));
    assert!(messages.contains(&"Message 4".to_string()));
    assert!(messages.contains(&"Message 5".to_string()));
    assert!(!messages.contains(&"Message 1".to_string()));
    assert!(!messages.contains(&"Message 2".to_string()));
}

#[test]
fn test_message_board_validation() {
    let mut board = MessageBoard::new(100);
    let player_id = fresh_id();

    // Test empty message
    let result = board.post_message(
        player_id,
        "Player".to_string(),
        "".to_string(),
        "JFK".to_string(),
    );
    assert!(result.is_err());
    assert_eq!(result.unwrap_err(), "Message content cannot be empty");

    // Test message exceeding max length
    let long_message = "a".repeat(501);
    let result = board.post_message(
        player_id,
        "Player".to_string(),
        long_message,
        "JFK".to_string(),
    );
    assert!(result.is_err());
    assert_eq!(
        result.unwrap_err(),
        "Message content cannot exceed 500 characters"
    );
}

fn post_at(board: &mut MessageBoard, id: u128, time: i64, text: &str, airport: &str) {
    board
        .post_message_with(id, time, 7, "Author".to_string(), text.to_string(), airport.to_string())
        .unwrap();
}

#[test]
fn a_board_of_capacity_n_keeps_the_last_n_of_n_plus_one() {
    for capacity in [0usize, 1, 2, 5, 50] {
        let mut board = MessageBoard::new(capacity);
        for i in 0..=capacity {
            post_at(&mut board, i as u128, i as i64, &format!("m{}", i), "JFK");
        }
        assert_eq!(board.message_count(None), capacity);
        let kept: Vec<String> = board.messages().iter().map(|m| m.content.clone()).collect();
        let expected: Vec<String> = (1..=capacity).map(|i| format!("m{}", i)).collect();
        assert_eq!(kept, expected);
    }
}

#[test]
fn messages_come_newest_first_and_equal_times_keep_their_order() {
    let mut board = MessageBoard::new(10);
    post_at(&mut board, 1, 300, "c", "JFK");
    post_at(&mut board, 2, 100, "a", "JFK");
    post_at(&mut board, 3, 200, "b1", "JFK");
    post_at(&mut board, 4, 200, "b2", "JFK");
    post_at(&mut board, 5, 400, "elsewhere", "LAX");
    let read: Vec<&str> = board.get_messages("JFK", None).iter().map(|m| m.content.as_str()).collect();
    assert_eq!(read, vec!["c", "b1", "b2", "a"]);
    let all: Vec<&str> = board.get_all_messages(None).iter().map(|m| m.content.as_str()).collect();
    assert_eq!(all, vec!["elsewhere", "c", "b1", "b2", "a"]);
}

#[test]
fn a_limit_cuts_the_list_of_messages() {
    let mut board = MessageBoard::new(10);
    for i in 0..5 {
        post_at(&mut board, i, i as i64, &format!("m{}", i), "JFK");
    }
    assert_eq!(board.get_messages("JFK", Some(2)).len(), 2);
    assert_eq!(board.get_messages("JFK", Some(2))[0].content, "m4");
    assert_eq!(board.get_messages("JFK", Some(0)).len(), 0);
    assert_eq!(board.get_messages("JFK", Some(5)).len(), 5);
    assert_eq!(board.get_messages("JFK", Some(99)).len(), 5);
    assert_eq!(board.get_all_messages(Some(3)).len(), 3);
}

#[test]
fn messages_are_counted_by_airport() {
    let mut board = MessageBoard::new(10);
    post_at(&mut board, 1, 1, "a", "JFK");
    post_at(&mut board, 2, 2, "b", "LAX");
    post_at(&mut board, 3, 3, "c", "JFK");
    assert_eq!(board.message_count(Some("JFK")), 2);
    assert_eq!(board.message_count(Some("LAX")), 1);
    assert_eq!(board.message_count(Some("SEA")), 0);
    assert_eq!(board.message_count(None), 3);
    board.clear_airport_messages("JFK");
    assert_eq!(board.message_count(Some("JFK")), 0);
    assert_eq!(board.message_count(None), 1);
    assert_eq!(board.messages()[0].content, "b");
}

#[test]
fn message_length_is_counted_in_characters() {
    let mut board = MessageBoard::new(10);
    // 500 characters of two bytes each are within the limit.
    let wide = "é".repeat(500);
    assert!(board
        .post_message(1, "A".to_string(), wide, "JFK".to_string())
        .is_ok());
    let too_wide = "é".repeat(501);
    assert!(board
        .post_message(1, "A".to_string(), too_wide, "JFK".to_string())
        .is_err());
    assert!(board
        .post_message(1, "A".to_string(), "a".repeat(500), "JFK".to_string())
        .is_ok());
    assert_eq!(board.message_count(None), 2);
}

#[test]
fn a_refused_message_leaves_the_board_alone() {
    let mut board = MessageBoard::new(10);
    post_at(&mut board, 1, 1, "a", "JFK");
    assert!(board
        .post_message(1, "A".to_string(), String::new(), "JFK".to_string())
        .is_err());
    assert_eq!(board.message_count(None), 1);
    assert_eq!(board.max_messages(), 10);
}

#[test]
fn posted_messages_carry_a_random_id_and_the_time() {
    let mut board = MessageBoard::new(10);
    let first = board
        .post_message(1, "A".to_string(), "x".to_string(), "JFK".to_string())
        .unwrap();
    let second = board
        .post_message(1, "A".to_string(), "y".to_string(), "JFK".to_string())
        .unwrap();
    assert!(kzrk::ident::has_random_kind(first.id));
    assert!(kzrk::ident::has_random_kind(second.id));
    assert_ne!(first.id, second.id);
    assert!(second.created_at >= first.created_at);
    assert_eq!(first.author_id, 1);
}

#[test]
fn a_board_made_of_kept_messages_is_cut_to_its_capacity() {
    let mut source = MessageBoard::new(10);
    for i in 0..4 {
        post_at(&mut source, i, i as i64, &format!("m{}", i), "JFK");
    }
    let board = MessageBoard::from_messages(source.messages().clone(), 2);
    assert_eq!(board.message_count(None), 2);
    assert_eq!(board.messages()[0].content, "m2");
    assert_eq!(board.messages()[1].content, "m3");
}
