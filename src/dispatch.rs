//! Translation of a command line into one back-end call, and the dispatcher
//! that performs that call and hands its result back.
use vstd::prelude::*;
use crate::args::{ExtractXisoArgs, Mode};
use crate::backend::{BackendCall, PackArgs, TreeArgs, UnpackArgs};

verus! {

/// The back-end call that a command line resolves to. Each mode copies only
/// the fields it consults: `-d` reaches the unpacker alone, the second
/// positional path the packer alone.
pub open spec fn call_of(args: ExtractXisoArgs) -> BackendCall {
    match args.spec_mode() {
        Mode::Create => BackendCall::Pack(
            PackArgs { source_path: args.input_path, image_path: args.output_path },
        ),
        Mode::List => BackendCall::Tree(TreeArgs { image_path: args.input_path }),
        Mode::Extract => BackendCall::Unpack(
            UnpackArgs { image_path: args.input_path, path: args.directory },
        ),
    }
}

fn copy_opt(s: &Option<String>) -> (r: Option<String>)
    ensures
        r == *s,
{
    match s {
        Some(v) => Some(v.clone()),
        None => None,
    }
}

/// Builds the parameter record of the back-end that `args` selects.
pub fn backend_call(args: &ExtractXisoArgs) -> (c: BackendCall)
    ensures
        c == call_of(*args),
{
    match args.mode() {
        Mode::Create => BackendCall::Pack(
            PackArgs {
                source_path: args.input_path.clone(),
                image_path: copy_opt(&args.output_path),
            },
        ),
        Mode::List => BackendCall::Tree(TreeArgs { image_path: args.input_path.clone() }),
        Mode::Extract => BackendCall::Unpack(
            UnpackArgs { image_path: args.input_path.clone(), path: copy_opt(&args.directory) },
        ),
    }
}

/// Runs the command line `args`: `backend` is called once, with the call that
/// `args` resolves to, and whatever it returns, success or error, is returned
/// unchanged.
pub fn cmd_extract_xiso<E, F>(args: &ExtractXisoArgs, backend: F) -> (r: Result<(), E>) where
    F: FnOnce(BackendCall) -> Result<(), E>,

    requires
        backend.requires((call_of(*args),)),
    ensures
        backend.ensures((call_of(*args),), r),
{
    let call = backend_call(args);
    backend(call)
}

/// Every valid command line resolves to exactly one back-end, and the mode
/// flag that is set names it: `-c` the packer, `-l` the tree lister, and `-x`
/// or no flag the unpacker.
pub proof fn lemma_exactly_one_backend(args: ExtractXisoArgs)
    requires
        args.wf(),
    ensures
        (if call_of(args) is Pack { 1int } else { 0int }) + (if call_of(args) is Tree {
            1int
        } else {
            0int
        }) + (if call_of(args) is Unpack { 1int } else { 0int }) == 1,
        args.create <==> call_of(args) is Pack,
        args.list <==> call_of(args) is Tree,
        !args.create && !args.list <==> call_of(args) is Unpack,
        args.extract ==> call_of(args) is Unpack,
{
}

/// With none of the three mode flags given, the command line extracts.
pub proof fn lemma_default_is_unpack(args: ExtractXisoArgs)
    requires
        !args.extract,
        !args.create,
        !args.list,
    ensures
        call_of(args) == BackendCall::Unpack(
            UnpackArgs { image_path: args.input_path, path: args.directory },
        ),
{
}

/// The directory of `-d` is handed to the unpacker as its `path`, and the
/// packer and the tree lister receive the same record whatever it is.
pub proof fn lemma_directory_reaches_unpack_only(a: ExtractXisoArgs, b: ExtractXisoArgs)
    requires
        a.extract == b.extract,
        a.create == b.create,
        a.list == b.list,
        a.input_path == b.input_path,
        a.output_path == b.output_path,
    ensures
        call_of(a) matches BackendCall::Unpack(u) ==> u.path == a.directory,
        !(call_of(a) is Unpack) ==> call_of(a) == call_of(b),
{
}

/// The second positional path is handed to the packer as its `image_path`,
/// and the tree lister and the unpacker receive the same record whatever it
/// is.
pub proof fn lemma_output_path_reaches_pack_only(a: ExtractXisoArgs, b: ExtractXisoArgs)
    requires
        a.extract == b.extract,
        a.create == b.create,
        a.list == b.list,
        a.input_path == b.input_path,
        a.directory == b.directory,
    ensures
        call_of(a) matches BackendCall::Pack(p) ==> p.image_path == a.output_path,
        !(call_of(a) is Pack) ==> call_of(a) == call_of(b),
{
}

} // verus!
