//! The message store: the received messages in the order in which they were
//! appended, addressed by position.

use crate::email::{answers, summary_of, EmailData, EmailSummary, SearchQuery, SummaryView};
use vstd::prelude::*;

verus! {

/// The messages after one is removed at `index`: those behind it move down
/// by one, and an index out of range removes nothing.
pub open spec fn after_remove(messages: Seq<EmailData>, index: int) -> Seq<EmailData> {
    if 0 <= index < messages.len() {
        messages.remove(index)
    } else {
        messages
    }
}

/// The summaries of the messages that answer `query`, in the order of the
/// store, each with the position of its message in the store.
pub open spec fn search_of(messages: Seq<EmailData>, query: Option<Seq<char>>) -> Seq<SummaryView>
    decreases messages.len(),
{
    if messages.len() == 0 {
        Seq::empty()
    } else if answers(messages.last()@, query) {
        search_of(messages.drop_last(), query).push(
            summary_of(messages.last()@, (messages.len() - 1) as usize),
        )
    } else {
        search_of(messages.drop_last(), query)
    }
}

/// The views of a sequence of summaries.
pub open spec fn summary_views(summaries: Seq<EmailSummary>) -> Seq<SummaryView> {
    Seq::new(summaries.len(), |i: int| summaries[i]@)
}

/// The messages after all are removed.
pub open spec fn after_clear(messages: Seq<EmailData>) -> Seq<EmailData> {
    Seq::empty()
}

/// The received messages, oldest first.
#[derive(Debug)]
pub struct EmailStore {
    emails: Vec<EmailData>,
}

impl View for EmailStore {
    type V = Seq<EmailData>;

    closed spec fn view(&self) -> Seq<EmailData> {
        self.emails@
    }
}

impl EmailStore {
    /// The empty store.
    pub fn new() -> (store: EmailStore)
        ensures
            store@ == Seq::<EmailData>::empty(),
    {
        EmailStore { emails: Vec::new() }
    }

    /// Puts `email` behind the messages that are there.
    pub fn append(&mut self, email: EmailData)
        ensures
            final(self)@ == old(self)@.push(email),
    {
        self.emails.push(email);
    }

    /// The number of messages.
    pub fn len(&self) -> (n: usize)
        ensures
            n == self@.len(),
    {
        self.emails.len()
    }

    /// Whether the store holds no message.
    pub fn is_empty(&self) -> (r: bool)
        ensures
            r == (self@.len() == 0),
    {
        self.emails.len() == 0
    }

    /// The message at `index`, if there is one.
    pub fn get(&self, index: usize) -> (r: Option<&EmailData>)
        ensures
            r == if index < self@.len() {
                Some(&self@[index as int])
            } else {
                None
            },
    {
        if index < self.emails.len() {
            Some(&self.emails[index])
        } else {
            None
        }
    }

    /// Removes the message at `index` and says whether there was one.
    pub fn remove(&mut self, index: usize) -> (removed: bool)
        ensures
            removed == (index < old(self)@.len()),
            final(self)@ == after_remove(old(self)@, index as int),
    {
        if index < self.emails.len() {
            self.emails.remove(index);
            true
        } else {
            false
        }
    }

    /// Removes every message.
    pub fn clear(&mut self)
        ensures
            final(self)@ == after_clear(old(self)@),
    {
        self.emails.clear();
    }

    /// The summaries of the messages that answer `query`.
    pub fn search(&self, query: &SearchQuery) -> (found: Vec<EmailSummary>)
        ensures
            summary_views(found@) == search_of(self@, query.text()),
    {
        let mut found: Vec<EmailSummary> = Vec::new();
        let mut i: usize = 0;
        assert(summary_views(found@) == search_of(self@.subrange(0, 0), query.text()));
        while i < self.emails.len()
            invariant
                i <= self.emails@.len(),
                summary_views(found@) == search_of(
                    self.emails@.subrange(0, i as int),
                    query.text(),
                ),
            decreases self.emails@.len() - i,
        {
            proof {
                let upto = self.emails@.subrange(0, i + 1);
                assert(upto.drop_last() == self.emails@.subrange(0, i as int));
                assert(upto.last() == self.emails@[i as int]);
            }
            if self.emails[i].matches(query) {
                let summary = self.emails[i].convert_to_email_summary(i);
                assert(summary_views(found@.push(summary)) == summary_views(found@).push(summary@));
                found.push(summary);
            }
            i += 1;
        }
        assert(self.emails@.subrange(0, i as int) == self.emails@);
        found
    }

    /// The summary of the message at `index`, if there is one.
    pub fn detail(&self, index: usize) -> (summary: Option<EmailSummary>)
        ensures
            match summary {
                Some(summary) => index < self@.len() && summary@ == summary_of(
                    self@[index as int]@,
                    index,
                ),
                None => index >= self@.len(),
            },
    {
        if index < self.emails.len() {
            Some(self.emails[index].convert_to_email_summary(index))
        } else {
            None
        }
    }

    /// All the messages, oldest first.
    pub fn emails(&self) -> (r: &Vec<EmailData>)
        ensures
            r@ == self@,
    {
        &self.emails
    }
}

/// A message that was appended is the last of the store, and is found at the
/// position that was the store's length, unchanged; the messages that were
/// there stay where they were.
pub proof fn lemma_appended_is_fetched(messages: Seq<EmailData>, email: EmailData)
    ensures
        messages.push(email).len() == messages.len() + 1,
        messages.push(email)[messages.len() as int] == email,
        forall|i: int| 0 <= i < messages.len() ==> messages.push(email)[i] == messages[i],
{
}

/// Clearing leaves the store empty whatever it held, so clearing twice
/// leaves it empty both times.
pub proof fn lemma_clear_twice(messages: Seq<EmailData>)
    ensures
        after_clear(messages) == Seq::<EmailData>::empty(),
        after_clear(after_clear(messages)) == after_clear(messages),
{
}

/// Removing at an index out of range changes nothing, and removing within
/// range takes out that one message and moves the later ones down by one.
pub proof fn lemma_remove(messages: Seq<EmailData>, index: int)
    ensures
        !(0 <= index < messages.len()) ==> after_remove(messages, index) == messages,
        0 <= index < messages.len() ==> after_remove(messages, index).len() == messages.len() - 1,
        forall|i: int|
            0 <= i < index < messages.len() ==> after_remove(messages, index)[i] == messages[i],
        forall|i: int|
            0 <= index <= i < messages.len() - 1 ==> after_remove(messages, index)[i] == messages[i
                + 1],
{
}

/// Appending messages one after the other loses none and doubles none,
/// whatever the order in which they arrive: the store grows by their number,
/// and two orders of the same messages leave stores that hold the same
/// messages, each as often as the other.
pub proof fn lemma_appends_keep_every_message(
    messages: Seq<EmailData>,
    arrivals: Seq<EmailData>,
    other_order: Seq<EmailData>,
)
    requires
        arrivals.to_multiset() == other_order.to_multiset(),
    ensures
        after_appends(messages, arrivals).len() == messages.len() + arrivals.len(),
        after_appends(messages, arrivals).to_multiset() == messages.to_multiset().add(
            arrivals.to_multiset(),
        ),
        after_appends(messages, arrivals).to_multiset() == after_appends(
            messages,
            other_order,
        ).to_multiset(),
{
    lemma_after_appends(messages, arrivals);
    lemma_after_appends(messages, other_order);
    vstd::seq_lib::lemma_multiset_commutative(messages, arrivals);
    vstd::seq_lib::lemma_multiset_commutative(messages, other_order);
}

/// The store after each of `arrivals` is appended in turn.
pub open spec fn after_appends(messages: Seq<EmailData>, arrivals: Seq<EmailData>) -> Seq<
    EmailData,
>
    decreases arrivals.len(),
{
    if arrivals.len() == 0 {
        messages
    } else {
        after_appends(messages.push(arrivals.first()), arrivals.drop_first())
    }
}

/// Appending in turn is concatenation.
pub proof fn lemma_after_appends(messages: Seq<EmailData>, arrivals: Seq<EmailData>)
    ensures
        after_appends(messages, arrivals) == messages + arrivals,
    decreases arrivals.len(),
{
    if arrivals.len() > 0 {
        lemma_after_appends(messages.push(arrivals.first()), arrivals.drop_first());
        assert(messages.push(arrivals.first()) + arrivals.drop_first() == messages + arrivals);
    } else {
        assert(messages + arrivals == messages);
    }
}

} // verus!
