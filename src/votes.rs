use vstd::prelude::*;

verus! {

/// A count of votes per choice, in the order in which each choice first got a vote.
pub struct VoteTally {
    entries: Vec<(String, u32)>,
}

/// Whether no choice occurs twice in `s`.
pub open spec fn distinct_choices(s: Seq<(Seq<char>, u32)>) -> bool {
    forall|i: int, j: int| 0 <= i < j < s.len() ==> s[i].0 != s[j].0
}

/// Whether `choice` has an entry in `s`.
pub open spec fn has_choice(s: Seq<(Seq<char>, u32)>, choice: Seq<char>) -> bool {
    exists|i: int| 0 <= i < s.len() && s[i].0 == choice
}

/// A vote count one higher, held at `u32::MAX` once it gets there.
pub open spec fn one_more(n: u32) -> u32 {
    if n == u32::MAX {
        n
    } else {
        (n + 1) as u32
    }
}

impl View for VoteTally {
    type V = Seq<(Seq<char>, u32)>;

    /// Each choice with its count.
    closed spec fn view(&self) -> Seq<(Seq<char>, u32)> {
        self.entries@.map_values(|e: (String, u32)| (e.0@, e.1))
    }
}

impl VoteTally {
    /// No choice occurs twice.
    pub open spec fn well_formed(&self) -> bool {
        distinct_choices(self@)
    }

    /// A tally with no votes.
    pub fn new() -> (r: VoteTally)
        ensures
            r@ == Seq::<(Seq<char>, u32)>::empty(),
            r.well_formed(),
    {
        let r = VoteTally { entries: Vec::new() };
        assert(r@ =~= Seq::<(Seq<char>, u32)>::empty());
        r
    }

    /// The position of `choice`'s entry, if it has one.
    fn find(&self, choice: &String) -> (r: Option<usize>)
        ensures
            match r {
                Some(i) => i < self@.len() && self@[i as int].0 == choice@,
                None => !has_choice(self@, choice@),
            },
    {
        let mut i: usize = 0;
        while i < self.entries.len()
            invariant
                i <= self.entries.len(),
                self@.len() == self.entries@.len(),
                forall|j: int| 0 <= j < i ==> self@[j].0 != choice@,
            decreases self.entries.len() - i,
        {
            if self.entries[i].0 == *choice {
                return Some(i);
            }
            i = i + 1;
        }
        None
    }

    /// Adds one vote for `choice` and returns its new count. A choice with no
    /// entry gets one at the end with a count of one; a count at `u32::MAX`
    /// stays there.
    pub fn record_vote(&mut self, choice: String) -> (n: u32)
        requires
            old(self).well_formed(),
        ensures
            final(self).well_formed(),
            has_choice(old(self)@, choice@) ==> exists|i: int|
                0 <= i < old(self)@.len() && old(self)@[i].0 == choice@ && n == one_more(
                    old(self)@[i].1,
                ) && final(self)@ == old(self)@.update(i, (choice@, n)),
            !has_choice(old(self)@, choice@) ==> n == 1 && final(self)@ == old(self)@.push(
                (choice@, 1u32),
            ),
    {
        match self.find(&choice) {
            Some(i) => {
                let count = self.entries[i].1;
                let n: u32 = if count == u32::MAX {
                    count
                } else {
                    count + 1
                };
                let ghost key = choice@;
                self.entries.set(i, (choice, n));
                assert(self@ =~= old(self)@.update(i as int, (key, n)));
                n
            },
            None => {
                let ghost key = choice@;
                self.entries.push((choice, 1));
                assert(self@ =~= old(self)@.push((key, 1u32)));
                1
            },
        }
    }

    /// The number of votes for `choice`: zero where it has none.
    pub fn votes_for(&self, choice: &String) -> (n: u32)
        requires
            self.well_formed(),
        ensures
            has_choice(self@, choice@) ==> exists|i: int|
                0 <= i < self@.len() && self@[i].0 == choice@ && n == self@[i].1,
            !has_choice(self@, choice@) ==> n == 0,
    {
        match self.find(choice) {
            Some(i) => self.entries[i].1,
            None => 0,
        }
    }

    /// The number of choices that have votes.
    pub fn len(&self) -> (r: usize)
        ensures
            r == self@.len(),
    {
        self.entries.len()
    }

    /// The choice at position `i` and its count.
    pub fn entry(&self, i: usize) -> (r: (&String, u32))
        requires
            i < self@.len(),
        ensures
            r.0@ == self@[i as int].0,
            r.1 == self@[i as int].1,
    {
        (&self.entries[i].0, self.entries[i].1)
    }
}

} // verus!
