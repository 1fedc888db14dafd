//! Subprocess invocations as data: the invokers construct them, the caller
//! executes them. Includes the selection of module artifacts for the
//! ahead-of-time compiler and the naming of its outputs.

use vstd::prelude::*;
use vstd::string::StrSliceExecFns;
use vstd::string::StringExecFns;
use crate::strutil::{spec_str_ends_with, str_ends_with};

verus! {

/// One subprocess to run: a program and its arguments, in order.
pub struct Invocation {
    pub program: String,
    pub args: Vec<String>,
}

/// Whether a path names a module artifact: it carries the module extension
/// behind a non-empty file stem, as a path library's extension lookup sees
/// it (a file named just `.wasm` has no extension).
pub open spec fn spec_is_wasm_file(f: Seq<char>) -> bool {
    spec_str_ends_with(f, ".wasm"@) && f.len() > ".wasm"@.len() && f[f.len()
        - ".wasm"@.len() - 1] != '/'
}

/// Whether `f` names a module artifact.
pub fn is_wasm_file(f: &str) -> (r: bool)
    ensures
        r == spec_is_wasm_file(f@),
{
    proof {
        reveal_strlit(".wasm");
    }
    if !str_ends_with(f, ".wasm") {
        return false;
    }
    let n = f.unicode_len();
    if n <= 5 {
        return false;
    }
    f.get_char(n - 6) != '/'
}

/// The name of the compiled-object twin of a module artifact: the same stem
/// with the object extension.
pub open spec fn spec_wasm_to_so(f: Seq<char>) -> Seq<char> {
    f.subrange(0, f.len() - ".wasm"@.len()) + ".so"@
}

/// Names the compiled-object twin of the module artifact `f`.
pub fn wasm_to_so(f: &str) -> (r: String)
    requires
        spec_is_wasm_file(f@),
    ensures
        r@ == spec_wasm_to_so(f@),
{
    proof {
        reveal_strlit(".wasm");
    }
    let n = f.unicode_len();
    let stem = f.substring_char(0, n - 5);
    let r = stem.to_owned().concat(".so");
    proof {
        assert(r@ =~= spec_wasm_to_so(f@));
    }
    r
}

/// The module artifacts among `files`, keeping their order.
pub open spec fn spec_wasm_files(files: Seq<Seq<char>>) -> Seq<Seq<char>>
    decreases files.len(),
{
    if files.len() == 0 {
        Seq::empty()
    } else {
        let rest = spec_wasm_files(files.drop_last());
        if spec_is_wasm_file(files.last()) {
            rest.push(files.last())
        } else {
            rest
        }
    }
}

/// The invocations `r` run one program, `bin`, once per module artifact in
/// `wf`, handing it the artifact and the name of its compiled-object twin.
pub open spec fn spec_invocations_match(
    r: Seq<Invocation>,
    bin: Seq<char>,
    wf: Seq<Seq<char>>,
) -> bool {
    r.len() == wf.len() && forall|i: int|
        0 <= i < wf.len() ==> {
            &&& (#[trigger] r[i]).program@ == bin
            &&& r[i].args.deep_view() == seq![wf[i], spec_wasm_to_so(wf[i])]
        }
}

/// Builds one invocation of the ahead-of-time compiler at `binary` per
/// module artifact in `files`, in order.
pub fn aot_invocations(binary: &str, files: &Vec<String>) -> (r: Vec<Invocation>)
    ensures
        spec_invocations_match(r@, binary@, spec_wasm_files(files.deep_view())),
{
    let mut r: Vec<Invocation> = Vec::new();
    let n = files.len();
    let mut i: usize = 0;
    while i < n
        invariant
            n == files@.len(),
            i <= n,
            spec_invocations_match(
                r@,
                binary@,
                spec_wasm_files(files.deep_view().take(i as int)),
            ),
        decreases n - i,
    {
        let f = &files[i];
        proof {
            assert(files.deep_view().take(i as int + 1).drop_last() =~= files.deep_view().take(
                i as int,
            ));
            assert(files.deep_view().take(i as int + 1).last() == f@);
        }
        if is_wasm_file(f.as_str()) {
            let out = wasm_to_so(f.as_str());
            let mut args: Vec<String> = Vec::new();
            args.push(f.clone());
            args.push(out);
            proof {
                assert(args.deep_view() =~= seq![f@, spec_wasm_to_so(f@)]);
            }
            r.push(Invocation { program: binary.to_owned(), args });
        }
        i += 1;
    }
    proof {
        assert(files.deep_view().take(n as int) =~= files.deep_view());
    }
    r
}

} // verus!
