//! The record that one row of a statement becomes.

use crate::date::DateTime;
use crate::number::Amount;
use vstd::prelude::*;

verus! {

/// One expense. Its identity is left empty here: whoever stores the expense
/// assigns it. Its tags are a set: no tag stands among them twice.
#[derive(Clone, Debug)]
pub struct Expense {
    id: String,
    description: String,
    amount: Amount,
    tags: Vec<String>,
    date: DateTime,
}

/// What an expense holds.
pub struct ExpenseView {
    pub id: Seq<char>,
    pub description: Seq<char>,
    pub amount: Amount,
    pub tags: Seq<Seq<char>>,
    pub date: DateTime,
}

impl ExpenseView {
    /// The expense that nothing has been filled into: no text, no tag, the
    /// amount zero, the date midnight of 1 January 1970.
    pub open spec fn empty() -> ExpenseView {
        ExpenseView {
            id: Seq::empty(),
            description: Seq::empty(),
            amount: Amount { bits: 0, divisions: 0 },
            tags: Seq::empty(),
            date: DateTime::spec_midnight(1970, 1, 1),
        }
    }
}

/// The tags with one more among them, unless it is there already.
pub open spec fn with_tag(tags: Seq<Seq<char>>, tag: Seq<char>) -> Seq<Seq<char>> {
    if tags.contains(tag) {
        tags
    } else {
        tags.push(tag)
    }
}

impl View for Expense {
    type V = ExpenseView;

    closed spec fn view(&self) -> ExpenseView {
        ExpenseView {
            id: self.id@,
            description: self.description@,
            amount: self.amount,
            tags: Seq::new(self.tags@.len(), |i: int| self.tags@[i]@),
            date: self.date,
        }
    }
}

impl Default for Expense {
    fn default() -> (r: Expense)
        ensures
            r@ == ExpenseView::empty(),
    {
        let r = Expense {
            id: String::new(),
            description: String::new(),
            amount: Amount::from_bits(0),
            tags: Vec::new(),
            date: DateTime::midnight(1970, 1, 1),
        };
        assert(r@.tags =~= Seq::empty());
        r
    }
}

impl Expense {
    /// An expense without tags, under the identity `"0"`.
    pub fn new(description: String, amount: Amount, date: DateTime) -> (r: Expense)
        ensures
            r@ == (ExpenseView {
                id: "0"@,
                description: description@,
                amount,
                tags: Seq::empty(),
                date,
            }),
    {
        let r = Expense {
            id: String::from_str("0"),
            description,
            amount,
            tags: Vec::new(),
            date,
        };
        assert(r@.tags =~= Seq::empty());
        r
    }

    /// Whether the expense has the tag.
    pub fn has_tag(&self, tag: &str) -> (r: bool)
        ensures
            r == self@.tags.contains(tag@),
    {
        let wanted = String::from_str(tag);
        let mut i: usize = 0;
        while i < self.tags.len()
            invariant
                i <= self.tags@.len(),
                wanted@ == tag@,
                forall|j: int| 0 <= j < i ==> self@.tags[j] != tag@,
            decreases self.tags@.len() - i,
        {
            if self.tags[i] == wanted {
                assert(self@.tags[i as int] == tag@);
                return true;
            }
            i += 1;
        }
        false
    }

    /// Adds a tag after those that are there, unless the expense has it.
    pub fn add_tag(&mut self, tag: &str)
        ensures
            final(self)@ == (ExpenseView { tags: with_tag(old(self)@.tags, tag@), ..old(self)@ }),
    {
        if !self.has_tag(tag) {
            self.tags.push(String::from_str(tag));
            assert(self@.tags =~= old(self)@.tags.push(tag@));
        }
    }

    pub fn set_id(&mut self, id: &str)
        ensures
            final(self)@ == (ExpenseView { id: id@, ..old(self)@ }),
    {
        self.id = String::from_str(id);
    }

    pub fn set_date(&mut self, date: DateTime)
        ensures
            final(self)@ == (ExpenseView { date, ..old(self)@ }),
    {
        self.date = date;
    }

    pub fn set_description(&mut self, description: &str)
        ensures
            final(self)@ == (ExpenseView { description: description@, ..old(self)@ }),
    {
        self.description = String::from_str(description);
    }

    pub fn set_amount(&mut self, amount: Amount)
        ensures
            final(self)@ == (ExpenseView { amount, ..old(self)@ }),
    {
        self.amount = amount;
    }

    pub fn get_id(&self) -> (r: &str)
        ensures
            r@ == self@.id,
    {
        self.id.as_str()
    }

    pub fn get_description(&self) -> (r: &str)
        ensures
            r@ == self@.description,
    {
        self.description.as_str()
    }

    pub fn get_date(&self) -> (r: &DateTime)
        ensures
            *r == self@.date,
    {
        &self.date
    }

    pub fn get_amount(&self) -> (r: Amount)
        ensures
            r == self@.amount,
    {
        self.amount
    }

    /// The tags, in the order in which they were added.
    pub fn get_tags(&self) -> (r: &Vec<String>)
        ensures
            r@.len() == self@.tags.len(),
            forall|i: int| 0 <= i < r@.len() ==> r@[i]@ == #[trigger] self@.tags[i],
    {
        &self.tags
    }
}

} // verus!
