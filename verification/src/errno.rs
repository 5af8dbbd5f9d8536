//! The POSIX error codes that the filesystem replies with, and their numbers.

use vstd::prelude::*;

verus! {

/// A POSIX error code. Every failure that crosses into the filesystem
/// protocol resolves to exactly one of these.
#[derive(Clone, Copy, Debug, PartialEq, Eq, Structural)]
pub enum Errno {
    /// Operation not permitted.
    EPERM,
    /// No such file or directory.
    ENOENT,
    /// Input/output error.
    EIO,
    /// File exists.
    EEXIST,
    /// Not a directory.
    ENOTDIR,
    /// Is a directory.
    EISDIR,
    /// Invalid argument.
    EINVAL,
    /// File too large.
    EFBIG,
    /// Directory not empty.
    ENOTEMPTY,
    /// Stale file handle.
    ESTALE,
}

/// `libc::EPERM`. On every Linux target libc defines it as 1.
#[verifier::external_body]
fn libc_eperm() -> (n: i32)
    ensures
        n == 1,
{
    libc::EPERM
}

/// `libc::ENOENT`. On every Linux target libc defines it as 2.
#[verifier::external_body]
fn libc_enoent() -> (n: i32)
    ensures
        n == 2,
{
    libc::ENOENT
}

/// `libc::EIO`. On every Linux target libc defines it as 5.
#[verifier::external_body]
fn libc_eio() -> (n: i32)
    ensures
        n == 5,
{
    libc::EIO
}

/// `libc::EEXIST`. On every Linux target libc defines it as 17.
#[verifier::external_body]
fn libc_eexist() -> (n: i32)
    ensures
        n == 17,
{
    libc::EEXIST
}

/// `libc::ENOTDIR`. On every Linux target libc defines it as 20.
#[verifier::external_body]
fn libc_enotdir() -> (n: i32)
    ensures
        n == 20,
{
    libc::ENOTDIR
}

/// `libc::EISDIR`. On every Linux target libc defines it as 21.
#[verifier::external_body]
fn libc_eisdir() -> (n: i32)
    ensures
        n == 21,
{
    libc::EISDIR
}

/// `libc::EINVAL`. On every Linux target libc defines it as 22.
#[verifier::external_body]
fn libc_einval() -> (n: i32)
    ensures
        n == 22,
{
    libc::EINVAL
}

/// `libc::EFBIG`. On every Linux target libc defines it as 27.
#[verifier::external_body]
fn libc_efbig() -> (n: i32)
    ensures
        n == 27,
{
    libc::EFBIG
}

/// `libc::ENOTEMPTY`. Its number depends on the architecture: libc's Linux
/// tables give 39, except 93 on MIPS and 66 on SPARC.
#[verifier::external_body]
fn libc_enotempty() -> (n: i32)
    ensures
        n == 39 || n == 93 || n == 66,
{
    libc::ENOTEMPTY
}

/// `libc::ESTALE`. Its number depends on the architecture: libc's Linux
/// tables give 116, except 151 on MIPS and 70 on SPARC.
#[verifier::external_body]
fn libc_estale() -> (n: i32)
    ensures
        n == 116 || n == 151 || n == 70,
{
    libc::ESTALE
}

impl Errno {
    /// Whether `n` is a number that the platform may give to this code.
    /// The eight historical codes have one number each; the two later ones
    /// have one number per architecture family.
    pub open spec fn is_number(self, n: int) -> bool {
        match self {
            Errno::EPERM => n == 1,
            Errno::ENOENT => n == 2,
            Errno::EIO => n == 5,
            Errno::EEXIST => n == 17,
            Errno::ENOTDIR => n == 20,
            Errno::EISDIR => n == 21,
            Errno::EINVAL => n == 22,
            Errno::EFBIG => n == 27,
            Errno::ENOTEMPTY => n == 39 || n == 93 || n == 66,
            Errno::ESTALE => n == 116 || n == 151 || n == 70,
        }
    }

    /// The number that the platform's C library gives to this code.
    pub fn raw(self) -> (n: i32)
        ensures
            self.is_number(n as int),
    {
        match self {
            Errno::EPERM => libc_eperm(),
            Errno::ENOENT => libc_enoent(),
            Errno::EIO => libc_eio(),
            Errno::EEXIST => libc_eexist(),
            Errno::ENOTDIR => libc_enotdir(),
            Errno::EISDIR => libc_eisdir(),
            Errno::EINVAL => libc_einval(),
            Errno::EFBIG => libc_efbig(),
            Errno::ENOTEMPTY => libc_enotempty(),
            Errno::ESTALE => libc_estale(),
        }
    }

    /// No number stands for two codes: a number identifies its code.
    pub proof fn lemma_number_identifies_code(a: Errno, b: Errno, n: int)
        requires
            a.is_number(n),
            b.is_number(n),
        ensures
            a == b,
    {
    }
}

} // verus!
