//! The render semantics of the produced value: its output interleaves the
//! literal segments with the displayed forms of the arguments, and is a
//! function of those alone.

use crate::data::views;
use crate::data::PFormatArgs;
use vstd::prelude::*;

verus! {

/// The rendered output of a produced value: `segment 0, argument 0,
/// segment 1, ..., argument n-1, segment n`.
pub open spec fn render_text(pieces: Seq<Seq<char>>, args: Seq<Seq<char>>) -> Seq<char>
    recommends
        pieces.len() == args.len() + 1,
    decreases args.len(),
{
    if args.len() == 0 {
        if pieces.len() > 0 {
            pieces[0]
        } else {
            Seq::<char>::empty()
        }
    } else {
        render_text(pieces.drop_last(), args.drop_last()) + args.last() + pieces.last()
    }
}

impl PFormatArgs {
    /// Renders the produced value, given the displayed form of each
    /// argument: the first literal segment, then each displayed argument
    /// followed immediately by the next literal segment.
    pub fn render(&self, displayed: &Vec<String>) -> (out: String)
        requires
            self.wf(),
            displayed@.len() == self.args@.len(),
        ensures
            out@ == render_text(views(self.pieces@), views(displayed@)),
    {
        let n = displayed.len();
        let mut out = String::new();
        out.append(self.pieces[0].as_str());
        proof {
            let vp = views(self.pieces@);
            let va = views(displayed@);
            assert(va.take(0).len() == 0);
            assert(vp.take(1)[0] == self.pieces@[0]@);
            assert(out@ =~= render_text(vp.take(1), va.take(0)));
        }
        let mut i: usize = 0;
        while i < n
            invariant
                self.wf(),
                n == displayed@.len(),
                n + 1 == self.pieces@.len(),
                i <= n,
                out@ == render_text(
                    views(self.pieces@).take(i + 1),
                    views(displayed@).take(i as int),
                ),
            decreases n - i,
        {
            out.append(displayed[i].as_str());
            out.append(self.pieces[i + 1].as_str());
            proof {
                let vp = views(self.pieces@);
                let va = views(displayed@);
                assert(vp.take(i + 2).drop_last() =~= vp.take(i + 1));
                assert(va.take(i + 1).drop_last() =~= va.take(i as int));
                assert(vp.take(i + 2).last() == self.pieces@[i + 1]@);
                assert(va.take(i + 1).last() == displayed@[i as int]@);
            }
            i = i + 1;
        }
        proof {
            assert(views(self.pieces@).take(n + 1) =~= views(self.pieces@));
            assert(views(displayed@).take(n as int) =~= views(displayed@));
        }
        out
    }
}

/// Rendering is idempotent: the output of a render is a function of the
/// produced value's literal segments and displayed arguments alone, so any
/// two renders of the same value yield identical output.
pub proof fn lemma_render_deterministic(
    pieces: Seq<Seq<char>>,
    args: Seq<Seq<char>>,
    first: Seq<char>,
    second: Seq<char>,
)
    requires
        first == render_text(pieces, args),
        second == render_text(pieces, args),
    ensures
        first == second,
{
}

} // verus!
