//! Miscellaneous code used in numerous places

use vstd::prelude::*;

use crate::json::seq_join;

verus! {

/// Each part followed by the separator.
pub open spec fn concat_each(parts: Seq<Seq<char>>, sep: Seq<char>) -> Seq<char>
    decreases parts.len(),
{
    if parts.len() == 0 {
        Seq::empty()
    } else {
        concat_each(parts.drop_last(), sep) + parts.last() + sep
    }
}

/// What `StrJoin::join` gives: every part followed by the joining string,
/// with the final character taken off (when there is one).
pub open spec fn str_join(parts: Seq<Seq<char>>, sep: Seq<char>) -> Seq<char> {
    let c = concat_each(parts, sep);
    if c.len() == 0 {
        c
    } else {
        c.drop_last()
    }
}

/// Removes the last character, if any (std's `String::pop`).
#[verifier::external_body]
pub(crate) fn pop_char(s: &mut String)
    ensures
        old(s)@.len() == 0 ==> final(s)@ == old(s)@,
        old(s)@.len() > 0 ==> final(s)@ == old(s)@.drop_last(),
{
    s.pop();
}

/// Whether two strings are equal.
pub fn str_eq(a: &str, b: &str) -> (r: bool)
    ensures
        r == (a@ == b@),
{
    a.to_owned() == b.to_owned()
}

/// A custom String-join trait.
pub trait StrJoin {
    spec fn parts_v(&self) -> Seq<Seq<char>>;

    /// Join the parts into a single owned string by the given joining string.
    ///
    /// ```
    /// use rs_es::util::StrJoin;
    ///
    /// let data = vec!["a", "b", "c", "d"];
    /// assert_eq!("a-b-c-d", StrJoin::join(&data, "-"));
    /// ```
    fn join(&self, join: &str) -> (r: String)
        ensures
            r@ == str_join(self.parts_v(), join@),
    ;
}

impl<'a> StrJoin for Vec<&'a str> {
    open spec fn parts_v(&self) -> Seq<Seq<char>> {
        Seq::new(self@.len(), |i: int| self@[i]@)
    }

    fn join(&self, join: &str) -> (r: String) {
        let mut s = String::new();
        let mut i: usize = 0;
        while i < self.len()
            invariant
                i <= self.len(),
                s@ == concat_each(self.parts_v().take(i as int), join@),
            decreases self.len() - i,
        {
            s.append(self[i]);
            s.append(join);
            proof {
                assert(self.parts_v().take(i + 1).drop_last() =~= self.parts_v().take(i as int));
            }
            i = i + 1;
        }
        assert(self.parts_v().take(self.len() as int) =~= self.parts_v());
        pop_char(&mut s);
        s
    }
}

impl StrJoin for Vec<String> {
    open spec fn parts_v(&self) -> Seq<Seq<char>> {
        Seq::new(self@.len(), |i: int| self@[i]@)
    }

    fn join(&self, join: &str) -> (r: String) {
        let mut s = String::new();
        let mut i: usize = 0;
        while i < self.len()
            invariant
                i <= self.len(),
                s@ == concat_each(self.parts_v().take(i as int), join@),
            decreases self.len() - i,
        {
            s.append(self[i].as_str());
            s.append(join);
            proof {
                assert(self.parts_v().take(i + 1).drop_last() =~= self.parts_v().take(i as int));
            }
            i = i + 1;
        }
        assert(self.parts_v().take(self.len() as int) =~= self.parts_v());
        pop_char(&mut s);
        s
    }
}

/// Each part followed by the separator is the joined parts followed by the separator.
pub proof fn lemma_concat_each_join(parts: Seq<Seq<char>>, sep: Seq<char>)
    requires
        parts.len() > 0,
    ensures
        concat_each(parts, sep) == seq_join(parts, sep) + sep,
    decreases parts.len(),
{
    if parts.len() == 1 {
        assert(parts.drop_last() =~= Seq::<Seq<char>>::empty());
        assert(concat_each(parts.drop_last(), sep) == Seq::<char>::empty());
        assert(concat_each(parts, sep) == Seq::<char>::empty() + parts[0] + sep);
        assert(concat_each(parts, sep) =~= parts[0] + sep);
    } else {
        lemma_concat_each_join(parts.drop_last(), sep);
        assert(concat_each(parts, sep) =~= seq_join(parts, sep) + sep);
    }
}

/// Law: joining with a one-character string puts that character between each
/// two neighbouring parts, and nothing else (an empty list gives "").
pub proof fn lemma_str_join_single_char(parts: Seq<Seq<char>>, c: char)
    ensures
        str_join(parts, seq![c]) == seq_join(parts, seq![c]),
{
    if parts.len() > 0 {
        lemma_concat_each_join(parts, seq![c]);
        assert((seq_join(parts, seq![c]) + seq![c]).drop_last() =~= seq_join(parts, seq![c]));
    }
}

} // verus!
