//! The message board of a room: a bounded log of what players wrote, kept
//! by airport.

use vstd::prelude::*;
use crate::clock::now;
use crate::ident::{fresh_id, is_random_id};
use crate::search::{
    arranged, belongs_behind, count_where, keep_where, lemma_count_where_step,
    lemma_first_where_at, lemma_first_where_none, lemma_keep_where_step, place_in,
};

verus! {

/// The longest message that the board takes, in characters.
pub const MAX_MESSAGE_LENGTH: usize = 500;

/// One message on the board.
#[derive(Debug)]
pub struct Message {
    pub id: u128,
    pub author_id: u128,
    pub author_name: String,
    pub content: String,
    pub airport_id: String,
    pub created_at: i64,
}

impl Clone for Message {
    fn clone(&self) -> (r: Self)
        ensures
            r == *self,
    {
        Message {
            id: self.id,
            author_id: self.author_id,
            author_name: self.author_name.clone(),
            content: self.content.clone(),
            airport_id: self.airport_id.clone(),
            created_at: self.created_at,
        }
    }
}

/// The last `capacity` of a run of messages, or all of them where there are
/// no more than that.
pub open spec fn most_recent(posts: Seq<Message>, capacity: nat) -> Seq<Message> {
    if posts.len() > capacity {
        posts.subrange(posts.len() - capacity, posts.len() as int)
    } else {
        posts
    }
}

/// The condition of having been written at an airport.
pub open spec fn is_at(airport_id: Seq<char>) -> spec_fn(Message) -> bool {
    |m: Message| m.airport_id@ == airport_id
}

/// The condition of having been written elsewhere than at an airport.
pub open spec fn is_not_at(airport_id: Seq<char>) -> spec_fn(Message) -> bool {
    |m: Message| m.airport_id@ != airport_id
}

/// The rule by which a reader sees messages: a message belongs behind
/// another if it is older.
pub open spec fn is_older() -> spec_fn(Message, Message) -> bool {
    |x: Message, item: Message| x.created_at < item.created_at
}

/// The messages that were written at an airport, in the order written.
pub open spec fn written_at(posts: Seq<Message>, airport_id: Seq<char>) -> Seq<Message> {
    keep_where(posts, is_at(airport_id))
}

/// The messages that were written elsewhere than at an airport, in the
/// order written.
pub open spec fn written_elsewhere(posts: Seq<Message>, airport_id: Seq<char>) -> Seq<Message> {
    keep_where(posts, is_not_at(airport_id))
}

/// A run of messages from newest to oldest; of two messages of one time the
/// one written first comes first.
pub open spec fn newest_first(posts: Seq<Message>) -> Seq<Message> {
    arranged(posts, is_older())
}

/// The first `limit` items of a run, or all of it where no limit is set or
/// the run is shorter.
pub open spec fn limited<T>(items: Seq<T>, limit: Option<usize>) -> Seq<T> {
    match limit {
        Some(n) => if n < items.len() {
            items.subrange(0, n as int)
        } else {
            items
        },
        None => items,
    }
}

/// The messages that references point to.
pub open spec fn pointed_to(refs: Seq<&Message>) -> Seq<Message> {
    refs.map_values(|m: &Message| *m)
}

/// Why the board refuses a text, if it does: it is empty, or longer than
/// the board takes.
pub open spec fn content_error(content: Seq<char>) -> Option<Seq<char>> {
    if content.len() == 0 {
        Some("Message content cannot be empty"@)
    } else if content.len() > MAX_MESSAGE_LENGTH {
        Some("Message content cannot exceed 500 characters"@)
    } else {
        None
    }
}

/// A bounded log of messages: when it is over its capacity the oldest
/// messages leave.
#[derive(Debug)]
pub struct MessageBoard {
    messages: Vec<Message>,
    max_messages: usize,
}

impl Clone for MessageBoard {
    fn clone(&self) -> (r: Self)
        ensures
            r.posts() == self.posts(),
            r.capacity() == self.capacity(),
    {
        let mut messages: Vec<Message> = Vec::new();
        let mut i: usize = 0;
        while i < self.messages.len()
            invariant
                i <= self.messages.len(),
                messages@ == self.messages@.subrange(0, i as int),
            decreases self.messages.len() - i,
        {
            messages.push(self.messages[i].clone());
            proof {
                assert(messages@ =~= self.messages@.subrange(0, i + 1));
            }
            i += 1;
        }
        proof {
            assert(self.messages@.subrange(0, i as int) =~= self.messages@);
        }
        MessageBoard { messages, max_messages: self.max_messages }
    }
}

impl Default for MessageBoard {
    fn default() -> (r: Self)
        ensures
            r.posts() == Seq::<Message>::empty(),
            r.capacity() == 0,
    {
        MessageBoard { messages: Vec::new(), max_messages: 0 }
    }
}

impl MessageBoard {
    /// The messages on the board, oldest first.
    pub closed spec fn posts(self) -> Seq<Message> {
        self.messages@
    }

    /// How many messages the board keeps.
    pub closed spec fn capacity(self) -> nat {
        self.max_messages as nat
    }

    /// An empty board that keeps up to `max_messages` messages.
    pub fn new(max_messages: usize) -> (r: Self)
        ensures
            r.posts() == Seq::<Message>::empty(),
            r.capacity() == max_messages,
    {
        MessageBoard { messages: Vec::new(), max_messages }
    }

    /// A board made of messages already written, oldest first, of which it
    /// keeps the last `max_messages`.
    pub fn from_messages(messages: Vec<Message>, max_messages: usize) -> (r: Self)
        ensures
            r.posts() == most_recent(messages@, max_messages as nat),
            r.capacity() == max_messages,
    {
        let mut board = MessageBoard { messages, max_messages };
        board.trim();
        board
    }

    /// How many messages the board keeps.
    pub fn max_messages(&self) -> (r: usize)
        ensures
            r == self.capacity(),
    {
        self.max_messages
    }

    /// The messages on the board, oldest first.
    pub fn messages(&self) -> (r: &Vec<Message>)
        ensures
            r@ == self.posts(),
    {
        &self.messages
    }

    fn trim(&mut self)
        ensures
            final(self).messages@ == most_recent(old(self).messages@, old(self).max_messages as nat),
            final(self).max_messages == old(self).max_messages,
    {
        let ghost before = self.messages@;
        while self.messages.len() > self.max_messages
            invariant
                self.max_messages == old(self).max_messages,
                before == old(self).messages@,
                self.messages.len() <= before.len(),
                before.len() > self.max_messages ==> self.messages.len() >= self.max_messages,
                self.messages@ == before.subrange(
                    before.len() - self.messages.len(),
                    before.len() as int,
                ),
                before.len() <= self.max_messages ==> self.messages@ == before,
            decreases self.messages.len(),
        {
            self.messages.remove(0);
            proof {
                assert(self.messages@ =~= before.subrange(
                    before.len() - self.messages.len(),
                    before.len() as int,
                ));
            }
        }
        proof {
            assert(before.subrange(0, before.len() as int) =~= before);
        }
    }

    /// Adds a message with a given id and time to the board, unless its
    /// text is empty or too long; then drops the oldest messages beyond the
    /// board's capacity.
    pub fn post_message_with(
        &mut self,
        id: u128,
        created_at: i64,
        author_id: u128,
        author_name: String,
        content: String,
        airport_id: String,
    ) -> (r: Result<Message, String>)
        ensures
            final(self).capacity() == old(self).capacity(),
            match r {
                Ok(message) => {
                    &&& content_error(content@) is None
                    &&& message == (Message {
                        id,
                        author_id,
                        author_name,
                        content,
                        airport_id,
                        created_at,
                    })
                    &&& final(self).posts() == most_recent(
                        old(self).posts().push(message),
                        old(self).capacity(),
                    )
                },
                Err(reason) => {
                    &&& content_error(content@) == Some(reason@)
                    &&& *final(self) == *old(self)
                },
            },
    {
        let length = content.as_str().unicode_len();
        if length == 0 {
            return Err("Message content cannot be empty".to_string());
        }
        if length > MAX_MESSAGE_LENGTH {
            return Err("Message content cannot exceed 500 characters".to_string());
        }
        let message = Message { id, author_id, author_name, content, airport_id, created_at };
        self.messages.push(message.clone());
        self.trim();
        Ok(message)
    }

    /// Adds a message to the board under a new id and the current time,
    /// unless its text is empty or too long; then drops the oldest messages
    /// beyond the board's capacity.
    pub fn post_message(
        &mut self,
        author_id: u128,
        author_name: String,
        content: String,
        airport_id: String,
    ) -> (r: Result<Message, String>)
        ensures
            final(self).capacity() == old(self).capacity(),
            match r {
                Ok(message) => {
                    &&& content_error(content@) is None
                    &&& is_random_id(message.id)
                    &&& message == (Message {
                        id: message.id,
                        author_id,
                        author_name,
                        content,
                        airport_id,
                        created_at: message.created_at,
                    })
                    &&& final(self).posts() == most_recent(
                        old(self).posts().push(message),
                        old(self).capacity(),
                    )
                },
                Err(reason) => {
                    &&& content_error(content@) == Some(reason@)
                    &&& *final(self) == *old(self)
                },
            },
    {
        let id = fresh_id();
        let created_at = now();
        self.post_message_with(id, created_at, author_id, author_name, content, airport_id)
    }

    /// Puts a message into a run that is ordered from newest to oldest.
    fn place<'a>(ordered: &mut Vec<&'a Message>, message: &'a Message)
        ensures
            pointed_to(final(ordered)@) == pointed_to(old(ordered)@).insert(
                place_in(pointed_to(old(ordered)@), *message, is_older()),
                *message,
            ),
    {
        let ghost before = pointed_to(ordered@);
        let ghost behind_it = belongs_behind(*message, is_older());
        let mut at: usize = 0;
        while at < ordered.len() && ordered[at].created_at >= message.created_at
            invariant
                at <= ordered.len(),
                before == pointed_to(ordered@),
                behind_it == belongs_behind(*message, is_older()),
                forall|j: int| 0 <= j < at ==> !behind_it(#[trigger] before[j]),
            decreases ordered.len() - at,
        {
            assert(before[at as int] == *ordered[at as int]);
            at += 1;
        }
        proof {
            if at < ordered.len() {
                assert(before[at as int] == *ordered[at as int]);
                assert(behind_it(before[at as int]));
                lemma_first_where_at(before, behind_it, at as int);
            } else {
                lemma_first_where_none(before, behind_it);
            }
            assert(place_in(before, *message, is_older()) == at);
        }
        ordered.insert(at, message);
        proof {
            assert(pointed_to(ordered@) =~= before.insert(at as int, *message));
        }
    }

    /// The messages written at an airport, newest first, and no more of
    /// them than the limit, where one is set.
    pub fn get_messages(&self, airport_id: &str, limit: Option<usize>) -> (r: Vec<&Message>)
        ensures
            pointed_to(r@) == limited(newest_first(written_at(self.posts(), airport_id@)), limit),
    {
        let wanted = airport_id.to_owned();
        let ghost here = is_at(airport_id@);
        let mut ordered: Vec<&Message> = Vec::new();
        let mut i: usize = 0;
        while i < self.messages.len()
            invariant
                i <= self.messages.len(),
                wanted@ == airport_id@,
                here == is_at(airport_id@),
                pointed_to(ordered@) == newest_first(
                    keep_where(self.messages@.subrange(0, i as int), here),
                ),
            decreases self.messages.len() - i,
        {
            proof {
                lemma_keep_where_step(self.messages@, here, i as int);
            }
            if self.messages[i].airport_id == wanted {
                proof {
                    let kept = keep_where(self.messages@.subrange(0, i as int), here);
                    assert(kept.push(self.messages[i as int]).drop_last() =~= kept);
                }
                Self::place(&mut ordered, &self.messages[i]);
            }
            i += 1;
        }
        proof {
            assert(self.messages@.subrange(0, i as int) =~= self.messages@);
        }
        Self::cut(ordered, limit)
    }

    /// All messages on the board, newest first, and no more of them than
    /// the limit, where one is set.
    pub fn get_all_messages(&self, limit: Option<usize>) -> (r: Vec<&Message>)
        ensures
            pointed_to(r@) == limited(newest_first(self.posts()), limit),
    {
        let mut ordered: Vec<&Message> = Vec::new();
        let mut i: usize = 0;
        while i < self.messages.len()
            invariant
                i <= self.messages.len(),
                pointed_to(ordered@) == newest_first(self.messages@.subrange(0, i as int)),
            decreases self.messages.len() - i,
        {
            proof {
                assert(self.messages@.subrange(0, i + 1).drop_last() =~= self.messages@.subrange(
                    0,
                    i as int,
                ));
            }
            Self::place(&mut ordered, &self.messages[i]);
            i += 1;
        }
        proof {
            assert(self.messages@.subrange(0, i as int) =~= self.messages@);
        }
        Self::cut(ordered, limit)
    }

    /// Takes the messages written at an airport off the board.
    pub fn clear_airport_messages(&mut self, airport_id: &str)
        ensures
            final(self).posts() == written_elsewhere(old(self).posts(), airport_id@),
            final(self).capacity() == old(self).capacity(),
    {
        let wanted = airport_id.to_owned();
        let ghost elsewhere = is_not_at(airport_id@);
        let mut kept: Vec<Message> = Vec::new();
        let mut i: usize = 0;
        while i < self.messages.len()
            invariant
                i <= self.messages.len(),
                wanted@ == airport_id@,
                elsewhere == is_not_at(airport_id@),
                kept@ == keep_where(self.messages@.subrange(0, i as int), elsewhere),
            decreases self.messages.len() - i,
        {
            proof {
                lemma_keep_where_step(self.messages@, elsewhere, i as int);
            }
            if !(self.messages[i].airport_id == wanted) {
                kept.push(self.messages[i].clone());
            }
            i += 1;
        }
        proof {
            assert(self.messages@.subrange(0, i as int) =~= self.messages@);
        }
        self.messages = kept;
    }

    /// How many messages are on the board: those written at an airport, or
    /// all of them where none is named.
    pub fn message_count(&self, airport_id: Option<&str>) -> (r: usize)
        ensures
            r == match airport_id {
                Some(id) => count_where(self.posts(), is_at(id@)),
                None => self.posts().len(),
            },
    {
        match airport_id {
            Some(id) => {
                let wanted = id.to_owned();
                let ghost here = is_at(id@);
                let mut count: usize = 0;
                let mut i: usize = 0;
                while i < self.messages.len()
                    invariant
                        i <= self.messages.len(),
                        wanted@ == id@,
                        here == is_at(id@),
                        count == count_where(self.messages@.subrange(0, i as int), here),
                        count <= i,
                    decreases self.messages.len() - i,
                {
                    proof {
                        lemma_count_where_step(self.messages@, here, i as int);
                    }
                    if self.messages[i].airport_id == wanted {
                        count += 1;
                    }
                    i += 1;
                }
                proof {
                    assert(self.messages@.subrange(0, i as int) =~= self.messages@);
                }
                count
            },
            None => self.messages.len(),
        }
    }

    fn cut<'a>(items: Vec<&'a Message>, limit: Option<usize>) -> (r: Vec<&'a Message>)
        ensures
            pointed_to(r@) == limited(pointed_to(items@), limit),
    {
        let ghost all = pointed_to(items@);
        let mut items = items;
        match limit {
            Some(n) => {
                if n < items.len() {
                    items.truncate(n);
                    proof {
                        assert(pointed_to(items@) =~= all.subrange(0, n as int));
                    }
                }
            },
            None => {},
        }
        items
    }
}

} // verus!
