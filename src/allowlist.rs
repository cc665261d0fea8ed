use vstd::prelude::*;
use vstd::string::StrSliceExecFns;

verus! {

/// The pieces of `s` between commas, in order: one more than there are commas.
pub open spec fn comma_fields(s: Seq<char>) -> Seq<Seq<char>>
    decreases s.len(),
{
    if s.len() == 0 {
        seq![Seq::<char>::empty()]
    } else {
        let f = comma_fields(s.drop_last());
        if s.last() == ',' {
            f.push(Seq::<char>::empty())
        } else {
            f.update(f.len() - 1, f.last().push(s.last()))
        }
    }
}

/// The sender addresses that may relay mail through the gateway.
pub struct Allowlist {
    senders: Vec<String>,
}

impl View for Allowlist {
    type V = Set<Seq<char>>;

    closed spec fn view(&self) -> Set<Seq<char>> {
        Set::new(|e: Seq<char>| exists|i: int| 0 <= i < self.senders@.len() && #[trigger] self.senders@[i]@ == e)
    }
}

impl Allowlist {
    /// An allowlist that holds exactly the given addresses.
    pub fn new(senders: Vec<String>) -> (r: Allowlist)
        ensures
            forall|e: Seq<char>| r@.contains(e) <==> exists|i: int| 0 <= i < senders@.len() && #[trigger] senders@[i]@ == e,
    {
        Allowlist { senders }
    }

    /// An allowlist that refuses every sender.
    pub fn empty() -> (r: Allowlist)
        ensures
            r@ == Set::<Seq<char>>::empty(),
    {
        let r = Allowlist { senders: Vec::new() };
        assert(r@ =~= Set::<Seq<char>>::empty());
        r
    }

    /// The allowlist of a comma-separated configuration value, each piece taken
    /// as it stands.
    pub fn from_config(s: &str) -> (r: Allowlist)
        ensures
            forall|e: Seq<char>| r@.contains(e) <==> comma_fields(s@).contains(e),
    {
        let n = s.unicode_len();
        let mut done: Vec<String> = Vec::new();
        let mut start: usize = 0;
        let mut i: usize = 0;
        assert(s@.take(0) =~= Seq::<char>::empty());
        assert(s@.subrange(0, 0) =~= Seq::<char>::empty());
        assert(done@.map_values(|x: String| x@) =~= Seq::<Seq<char>>::empty());
        while i < n
            invariant
                n == s@.len(),
                start <= i <= n,
                comma_fields(s@.take(i as int)) =~= done@.map_values(|x: String| x@).push(
                    s@.subrange(start as int, i as int),
                ),
            decreases n - i,
        {
            let c = s.get_char(i);
            let ghost prev = s@.take(i as int);
            assert(s@.take(i + 1).drop_last() =~= prev);
            assert(s@.take(i + 1).last() == c);
            if c == ',' {
                let piece = s.substring_char(start, i).to_owned();
                done.push(piece);
                start = i + 1;
                i = i + 1;
                assert(s@.subrange(start as int, i as int) =~= Seq::<char>::empty());
            } else {
                i = i + 1;
                assert(s@.subrange(start as int, i as int) =~= s@.subrange(
                    start as int,
                    i - 1,
                ).push(c));
            }
        }
        let last = s.substring_char(start, n).to_owned();
        done.push(last);
        assert(s@.take(n as int) =~= s@);
        let ghost fields = done@.map_values(|x: String| x@);
        assert(fields =~= comma_fields(s@));
        let r = Allowlist { senders: done };
        assert forall|e: Seq<char>| r@.contains(e) <==> comma_fields(s@).contains(e) by {
            if comma_fields(s@).contains(e) {
                let k = choose|k: int| 0 <= k < fields.len() && fields[k] == e;
                assert(r.senders@[k]@ == e);
            }
            if r@.contains(e) {
                let k = choose|k: int| 0 <= k < r.senders@.len() && #[trigger] r.senders@[k]@ == e;
                assert(fields[k] == e);
            }
        }
        r
    }

    /// Whether `email` is one of the allowed senders, compared exactly.
    pub fn is_allowed(&self, email: &String) -> (r: bool)
        ensures
            r == self@.contains(email@),
    {
        let mut i: usize = 0;
        while i < self.senders.len()
            invariant
                0 <= i <= self.senders@.len(),
                forall|j: int| 0 <= j < i ==> self.senders@[j]@ != email@,
            decreases self.senders.len() - i,
        {
            if self.senders[i] == *email {
                assert(self.senders@[i as int]@ == email@);
                return true;
            }
            i = i + 1;
        }
        assert(!self@.contains(email@));
        false
    }
}

} // verus!
