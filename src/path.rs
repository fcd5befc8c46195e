use vstd::prelude::*;

verus! {

/// A breadcrumb trail into a configuration document, such as
/// `chains.ethereum.checkpointsyncer.bucket`. It only labels errors.
#[derive(Debug)]
pub struct ConfigPath {
    pub segments: Vec<String>,
}

impl View for ConfigPath {
    type V = Seq<Seq<char>>;

    open spec fn view(&self) -> Seq<Seq<char>> {
        self.segments@.map_values(|s: String| s@)
    }
}

impl ConfigPath {
    /// The path of the document's root.
    pub fn root() -> (r: ConfigPath)
        ensures
            r@ == Seq::<Seq<char>>::empty(),
    {
        let r = ConfigPath { segments: Vec::new() };
        assert(r@ =~= Seq::<Seq<char>>::empty());
        r
    }

    /// This path with one more segment at its end.
    pub fn join(&self, seg: &str) -> (r: ConfigPath)
        ensures
            r@ == self@.push(seg@),
    {
        let mut segments: Vec<String> = Vec::new();
        let mut i: usize = 0;
        while i < self.segments.len()
            invariant
                i <= self.segments@.len(),
                segments@.map_values(|s: String| s@) =~= self@.subrange(0, i as int),
            decreases self.segments@.len() - i,
        {
            let s = self.segments[i].clone();
            let ghost before = segments@;
            segments.push(s);
            assert(segments@ == before.push(s));
            assert(segments@.map_values(|s: String| s@) =~= before.map_values(|s: String| s@).push(s@));
            assert(self@.subrange(0, i + 1) =~= self@.subrange(0, i as int).push(s@));
            i = i + 1;
        }
        let last = String::from_str(seg);
        let ghost before = segments@;
        segments.push(last);
        assert(segments@.map_values(|s: String| s@) =~= before.map_values(|s: String| s@).push(last@));
        assert(self@.subrange(0, self@.len() as int) =~= self@);
        let r = ConfigPath { segments };
        assert(r@ =~= self@.push(seg@));
        r
    }

    /// The segments joined by dots.
    pub fn dotted(&self) -> (r: String)
        ensures
            r@ == dotted_spec(self@),
    {
        let mut r = String::new();
        let mut i: usize = 0;
        while i < self.segments.len()
            invariant
                i <= self.segments@.len(),
                r@ == dotted_spec(self@.subrange(0, i as int)),
            decreases self.segments@.len() - i,
        {
            assert(self@.subrange(0, i + 1).drop_last() =~= self@.subrange(0, i as int));
            assert(self@.subrange(0, i + 1).last() == self.segments@[i as int]@);
            assert(i == 0 ==> self@.subrange(0, i + 1)[0] == self.segments@[i as int]@);
            if i > 0 {
                proof {
                    reveal_strlit(".");
                }
                assert("."@ =~= seq!['.']);
                r.append(".");
            }
            r.append(self.segments[i].as_str());
            i = i + 1;
        }
        assert(self@.subrange(0, i as int) =~= self@);
        r
    }
}

/// Segments joined by `.`.
pub open spec fn dotted_spec(segs: Seq<Seq<char>>) -> Seq<char>
    decreases segs.len(),
{
    if segs.len() == 0 {
        Seq::empty()
    } else if segs.len() == 1 {
        segs[0]
    } else {
        dotted_spec(segs.drop_last()) + seq!['.'] + segs.last()
    }
}

} // verus!
