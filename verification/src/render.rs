//! Assembling the text of one output record.
//!
//! One converted sample is written as the echoed first ADC code followed by
//! one converted value per channel, all joined with `", "`.  The pieces are
//! rendered by the caller (they carry floating-point values); this module
//! joins them and builds the synthetic record of the debug mode.

use vstd::prelude::*;

verus! {

/// The mathematical view of each string in `ps`, in order.
pub open spec fn string_views(ps: Seq<String>) -> Seq<Seq<char>> {
    Seq::new(ps.len(), |i: int| ps[i]@)
}

/// The pieces joined with `", "`; no pieces yield the empty text.
pub open spec fn joined(parts: Seq<Seq<char>>) -> Seq<char>
    decreases parts.len(),
{
    if parts.len() == 0 {
        Seq::empty()
    } else if parts.len() == 1 {
        parts[0]
    } else {
        parts[0] + ", "@ + joined(parts.subrange(1, parts.len() as int))
    }
}

/// Appending one more piece extends the joined text by `", "` and the piece
/// — or is the piece itself when it is the first.
pub proof fn lemma_joined_push(parts: Seq<Seq<char>>, p: Seq<char>)
    ensures
        parts.len() == 0 ==> joined(parts.push(p)) == p,
        parts.len() > 0 ==> joined(parts.push(p)) == joined(parts) + ", "@ + p,
    decreases parts.len(),
{
    let whole = parts.push(p);
    if parts.len() == 0 {
        assert(whole[0] == p);
    } else if parts.len() == 1 {
        assert(whole.subrange(1, whole.len() as int) =~= seq![p]);
        assert(whole[0] == parts[0]);
        assert(joined(seq![p]) == p);
        assert(joined(whole) == whole[0] + ", "@ + joined(
            whole.subrange(1, whole.len() as int),
        ));
    } else {
        let tail = parts.subrange(1, parts.len() as int);
        lemma_joined_push(tail, p);
        assert(whole.subrange(1, whole.len() as int) =~= tail.push(p));
        assert(whole[0] == parts[0]);
        assert(joined(whole) == whole[0] + ", "@ + joined(
            whole.subrange(1, whole.len() as int),
        ));
        assert(joined(parts) == parts[0] + ", "@ + joined(tail));
        assert(parts[0] + ", "@ + (joined(tail) + ", "@ + p) =~= (parts[0] + ", "@ + joined(
            tail,
        )) + ", "@ + p);
    }
}

/// Joins the rendered pieces of one sample with `", "`, in order.
pub fn render_sample(parts: &Vec<String>) -> (r: String)
    ensures
        r@ == joined(string_views(parts@)),
{
    let mut r = String::new();
    let mut i: usize = 0;
    proof {
        assert(string_views(parts@).subrange(0, 0) =~= Seq::<Seq<char>>::empty());
    }
    while i < parts.len()
        invariant
            i <= parts@.len(),
            r@ == joined(string_views(parts@).subrange(0, i as int)),
        decreases parts@.len() - i,
    {
        proof {
            let views = string_views(parts@);
            assert(views.subrange(0, i as int).push(views[i as int]) =~= views.subrange(
                0,
                i as int + 1,
            ));
            lemma_joined_push(views.subrange(0, i as int), views[i as int]);
            assert(views[i as int] == parts@[i as int]@);
        }
        if i > 0 {
            r.append(", ");
        }
        r.append(parts[i].as_str());
        proof {
            let views = string_views(parts@);
            if i == 0 {
                assert(r@ =~= views[0]);
            }
        }
        i += 1;
    }
    proof {
        assert(string_views(parts@).subrange(0, parts@.len() as int) =~= string_views(parts@));
    }
    r
}

/// The synthetic record of the debug mode: the tag `debug` and one ADC code.
pub fn debug_record(code_text: &str) -> (r: String)
    ensures
        r@ == "debug, "@ + code_text@,
{
    let mut r = String::from_str("debug, ");
    r.append(code_text);
    r
}

} // verus!
