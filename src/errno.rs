use vstd::prelude::*;

verus! {

// The codes below come from the generic part of Linux's errno table, which
// every architecture shares.

/// Linux's code for "no such file or directory".
pub open spec fn spec_enoent() -> i32 {
    2
}

/// Linux's code for "file exists".
pub open spec fn spec_eexist() -> i32 {
    17
}

/// Linux's code for "invalid argument".
pub open spec fn spec_einval() -> i32 {
    22
}

/// Relies on nix's `Errno::ENOENT`, which is libc's `ENOENT`.
#[verifier::external_body]
pub(crate) fn enoent() -> (r: i32)
    ensures
        r == spec_enoent(),
{
    nix::errno::Errno::ENOENT as i32
}

/// Relies on nix's `Errno::EEXIST`, which is libc's `EEXIST`.
#[verifier::external_body]
pub(crate) fn eexist() -> (r: i32)
    ensures
        r == spec_eexist(),
{
    nix::errno::Errno::EEXIST as i32
}

/// Relies on nix's `Errno::EINVAL`, which is libc's `EINVAL`.
#[verifier::external_body]
pub(crate) fn einval() -> (r: i32)
    ensures
        r == spec_einval(),
{
    nix::errno::Errno::EINVAL as i32
}

/// Relies on nix's `Errno::EOPNOTSUPP`, which is libc's `EOPNOTSUPP`.  Its
/// value differs between architectures (95, 45, 122, 223): it is positive and
/// none of the three codes above.
#[verifier::external_body]
pub(crate) fn eopnotsupp() -> (r: i32)
    ensures
        r > 0,
        r != spec_enoent(),
        r != spec_eexist(),
        r != spec_einval(),
{
    nix::errno::Errno::EOPNOTSUPP as i32
}

} // verus!
