//! What is decided around the loader's calls: how a name is handed to the
//! loader, and what each of its answers means. The calls themselves are made
//! by the host.

use crate::error::outcome_view;
use crate::error::ForwardError;
use crate::error::ForwardErrorView;
use vstd::prelude::*;
use vstd::utf8::encode_utf8;

verus! {

/// Whether a name holds the character zero, which alone is written as a zero
/// byte.
pub open spec fn has_nul(text: Seq<char>) -> bool {
    exists|i: int| 0 <= i < text.len() && text[i] == '\0'
}

/// Decides whether a name holds the character zero.
pub fn contains_nul(text: &str) -> (r: bool)
    ensures
        r == has_nul(text@),
{
    for c in it: text.chars()
        invariant
            it.seq() == text@,
            forall|k: int| 0 <= k < it.index() ==> text@[k] != '\0',
    {
        if c == '\0' {
            return true;
        }
    }
    false
}

/// The bytes of a name as the loader takes them: the name's UTF-8 bytes and a
/// terminating zero. A name that holds the character zero itself cannot be
/// encoded: the loader would take the name to end there.
pub fn c_string(text: &str) -> (r: Result<Vec<u8>, ForwardError>)
    ensures
        has_nul(text@) ==> r matches Err(ForwardError::EncodingError),
        !has_nul(text@) ==> r is Ok && r->Ok_0@ == encode_utf8(text@).push(0u8),
{
    if contains_nul(text) {
        return Err(ForwardError::EncodingError);
    }
    let mut out = text.as_bytes_vec();
    out.push(0u8);
    Ok(out)
}

/// What the loader's answer to a request to load `lib_filename` means. A
/// name that holds the character zero cannot be handed to the loader at all. For any
/// other name a null module is a failure, reported with the loader's last
/// error code as it is.
pub fn load_library(lib_filename: &str, module: isize, last_error: u32) -> (r: Result<
    isize,
    ForwardError,
>)
    ensures
        has_nul(lib_filename@) ==> r matches Err(ForwardError::EncodingError),
        !has_nul(lib_filename@) && module != 0 ==> r == Ok::<isize, ForwardError>(
            module,
        ),
        !has_nul(lib_filename@) && module == 0 ==> outcome_view(r) == Err::<
            isize,
            ForwardErrorView,
        >(ForwardErrorView::LoadError { name: lib_filename@, system_code: last_error }),
{
    if contains_nul(lib_filename) {
        Err(ForwardError::EncodingError)
    } else if module == 0 {
        Err(ForwardError::LoadError { name: String::from_str(lib_filename), system_code: last_error })
    } else {
        Ok(module)
    }
}

/// What the loader's answer to pinning an already loaded module means:
/// `status` zero is a failure, reported with the last error code as it is and
/// without a name, since the module was found by address.
pub fn load_library_by_handle(status: i32, module: isize, last_error: u32) -> (r: Result<
    isize,
    ForwardError,
>)
    ensures
        status != 0 ==> r == Ok::<isize, ForwardError>(module),
        status == 0 ==> outcome_view(r) == Err::<isize, ForwardErrorView>(
            ForwardErrorView::LoadError { name: Seq::<char>::empty(), system_code: last_error },
        ),
{
    if status == 0 {
        Err(ForwardError::LoadError { name: String::new(), system_code: last_error })
    } else {
        Ok(module)
    }
}

/// What the loader's answer to looking up `proc_name` means. A name that
/// holds the character zero cannot be handed to the loader at all. For any other
/// name a null address says the loaded library lacks the export.
pub fn get_proc_address_by_module(proc_name: &str, address: usize, last_error: u32) -> (r: Result<
    usize,
    ForwardError,
>)
    ensures
        has_nul(proc_name@) ==> r matches Err(ForwardError::EncodingError),
        !has_nul(proc_name@) && address != 0 ==> r == Ok::<usize, ForwardError>(
            address,
        ),
        !has_nul(proc_name@) && address == 0 ==> outcome_view(r) == Err::<
            usize,
            ForwardErrorView,
        >(ForwardErrorView::SymbolNotFound { name: proc_name@, system_code: last_error }),
{
    if contains_nul(proc_name) {
        Err(ForwardError::EncodingError)
    } else if address == 0 {
        Err(
            ForwardError::SymbolNotFound {
                name: String::from_str(proc_name),
                system_code: last_error,
            },
        )
    } else {
        Ok(address)
    }
}

/// A reference to a loaded library that is given back when it goes out of
/// use, unless it was taken out with `into_raw`.
#[derive(Debug, PartialEq, Eq)]
pub struct ForeignLibrary {
    pub module_handle: isize,
}

impl ForeignLibrary {
    /// Wraps the loader's answer to a request to load `lib_name`.
    pub fn new(lib_name: &str, module: isize, last_error: u32) -> (r: Result<Self, ForwardError>)
        ensures
            has_nul(lib_name@) ==> r matches Err(ForwardError::EncodingError),
            !has_nul(lib_name@) && module != 0 ==> r == Ok::<Self, ForwardError>(
                ForeignLibrary { module_handle: module },
            ),
            !has_nul(lib_name@) && module == 0 ==> outcome_view(r) == Err::<
                Self,
                ForwardErrorView,
            >(ForwardErrorView::LoadError { name: lib_name@, system_code: last_error }),
    {
        match load_library(lib_name, module, last_error) {
            Ok(module_handle) => Ok(ForeignLibrary { module_handle }),
            Err(e) => Err(e),
        }
    }

    /// What the loader's answer to looking up `proc_name` in this library means.
    pub fn get_proc_address(&self, proc_name: &str, address: usize, last_error: u32) -> (r: Result<
        usize,
        ForwardError,
    >)
        ensures
            has_nul(proc_name@) ==> r matches Err(ForwardError::EncodingError),
            !has_nul(proc_name@) && address != 0 ==> r == Ok::<usize, ForwardError>(
                address,
            ),
            !has_nul(proc_name@) && address == 0 ==> outcome_view(r) == Err::<
                usize,
                ForwardErrorView,
            >(ForwardErrorView::SymbolNotFound { name: proc_name@, system_code: last_error }),
    {
        get_proc_address_by_module(proc_name, address, last_error)
    }

    /// Whether the reference has to be given back to the loader when this
    /// value goes out of use: a null handle refers to nothing.
    pub fn must_free(&self) -> (free: bool)
        ensures
            free == (self.module_handle != 0),
    {
        self.module_handle != 0
    }

    /// Takes the handle out; the reference is then never given back.
    pub fn into_raw(self) -> (handle: isize)
        ensures
            handle == self.module_handle,
    {
        self.module_handle
    }
}

} // verus!
