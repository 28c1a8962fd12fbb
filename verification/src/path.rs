//! Normalizing the working directory of a service: empty components are
//! dropped, and the result starts and ends with `/`.
use vstd::prelude::*;
use vstd::string::*;

verus! {

/// What scanning `s` adds after the leading `/`, given whether the scan is
/// inside a component: each character that is not `/` is kept, and each
/// component that ends (at a `/` or at the end) is followed by one `/`.
pub open spec fn root_body(s: Seq<char>, in_component: bool) -> Seq<char>
    decreases s.len(),
{
    if s.len() == 0 {
        if in_component {
            seq!['/']
        } else {
            Seq::empty()
        }
    } else if s[0] == '/' {
        (if in_component {
            seq!['/']
        } else {
            Seq::<char>::empty()
        }) + root_body(s.drop_first(), false)
    } else {
        seq![s[0]] + root_body(s.drop_first(), true)
    }
}

/// The normalized form of a working directory: `/`, then each non-empty
/// component of the path followed by `/`.
pub open spec fn normalized_root(s: Seq<char>) -> Seq<char> {
    seq!['/'] + root_body(s, false)
}

/// Normalizes a working directory: components are split at `/`, the empty
/// ones are dropped, and the rest are joined with `/` between `/` and `/`;
/// so `""` and `"/"` give `"/"`, and `"abc//def"` gives `"/abc/def/"`.
pub fn normalize_root(v: &str) -> (out: String)
    ensures
        out@ == normalized_root(v@),
{
    proof {
        reveal_strlit("/");
    }
    let n = v.unicode_len();
    let mut out = String::from_str("/");
    let mut in_component = false;
    let mut i: usize = 0;
    assert(v@.skip(0) =~= v@);
    while i < n
        invariant
            n == v@.len(),
            0 <= i <= n,
            normalized_root(v@) == out@ + root_body(v@.skip(i as int), in_component),
        decreases n - i,
    {
        let c = v.get_char(i);
        let ghost before = out@;
        let ghost was_in = in_component;
        assert(v@.skip(i as int).drop_first() =~= v@.skip(i + 1));
        assert(v@.skip(i as int)[0] == c);
        if c == '/' {
            if in_component {
                proof {
                    reveal_strlit("/");
                }
                assert("/"@ =~= seq!['/']);
                out.append("/");
            }
            in_component = false;
            let ghost chunk = if was_in {
                seq!['/']
            } else {
                Seq::<char>::empty()
            };
            assert(out@ =~= before + chunk);
            assert(root_body(v@.skip(i as int), was_in) == chunk + root_body(v@.skip(i + 1), false));
            assert(before + (chunk + root_body(v@.skip(i + 1), false)) =~= out@ + root_body(
                v@.skip(i + 1),
                false,
            ));
        } else {
            let piece = v.substring_char(i, i + 1);
            assert(piece@ =~= seq![c]);
            out.append(piece);
            in_component = true;
            assert(out@ =~= before + seq![c]);
            assert(root_body(v@.skip(i as int), was_in) == seq![c] + root_body(v@.skip(i + 1), true));
            assert(before + (seq![c] + root_body(v@.skip(i + 1), true)) =~= out@ + root_body(
                v@.skip(i + 1),
                true,
            ));
        }
        i = i + 1;
    }
    let ghost before = out@;
    assert(v@.skip(n as int) =~= Seq::<char>::empty());
    if in_component {
        proof {
            reveal_strlit("/");
        }
        assert("/"@ =~= seq!['/']);
        out.append("/");
        assert(out@ =~= before + seq!['/']);
    } else {
        assert(before + root_body(v@.skip(n as int), false) =~= before);
    }
    out
}

} // verus!
