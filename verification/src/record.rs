use vstd::prelude::*;
use vstd::string::StringExecFns;
use crate::error::GuestError;
use crate::guest_type::{GuestErrorType, GuestType, read_spec, write_spec};
use crate::memory::{GuestMemory, validate_spec, splice, read_bytes, write_bytes};
use crate::pointer::GuestPtr;

verus! {

/// Whether `e` is the failure `cause`, marked as one that came up while
/// the field `field` of the type `typename` was handled.
pub open spec fn is_in_data_field(
    e: GuestError,
    typename: Seq<char>,
    field: Seq<char>,
    cause: GuestError,
) -> bool {
    e matches GuestError::InDataField { typename: t, field: f, err } && t@ == typename && f@
        == field && *err == cause
}

/// Whether `e` is the failure `cause`, marked as one that came up at
/// `location` in the imported function `funcname`.
pub open spec fn is_in_func(
    e: GuestError,
    funcname: Seq<char>,
    location: Seq<char>,
    cause: GuestError,
) -> bool {
    e matches GuestError::InFunc { funcname: n, location: l, err } && n@ == funcname && l@
        == location && *err == cause
}

/// Marks a failure as one that came up while a field of a record or an
/// arm of a union was handled.
pub fn in_data_field(typename: &str, field: &str, cause: GuestError) -> (e: GuestError)
    ensures
        is_in_data_field(e, typename@, field@, cause),
{
    GuestError::InDataField {
        typename: String::from_str(typename),
        field: String::from_str(field),
        err: Box::new(cause),
    }
}

/// Marks a failure as one that came up inside an imported function.
pub fn in_func(funcname: &str, location: &str, cause: GuestError) -> (e: GuestError)
    ensures
        is_in_func(e, funcname@, location@, cause),
{
    GuestError::InFunc {
        funcname: String::from_str(funcname),
        location: String::from_str(location),
        err: Box::new(cause),
    }
}

/// What reading the field at `field_offset` of the record at `record`
/// must give, before the failure is marked with the field's name: the
/// value at the field's place, `PtrOverflow` where the place lies past the
/// end of the address space, or the failure of the read.
pub open spec fn field_read_spec<T: GuestType>(
    base: usize,
    contents: Seq<u8>,
    record: u32,
    field_offset: u32,
) -> Result<T, GuestError> {
    if record + field_offset > u32::MAX {
        Err(GuestError::PtrOverflow)
    } else {
        read_spec::<T>(base, contents, (record + field_offset) as u32)
    }
}

/// What writing the field at `field_offset` of the record at `record`
/// must give, before the failure is marked with the field's name, and the
/// bytes that the buffer holds afterwards.
pub open spec fn field_write_spec<T: GuestType>(
    base: usize,
    contents: Seq<u8>,
    record: u32,
    field_offset: u32,
    val: T,
) -> (Result<(), GuestError>, Seq<u8>) {
    if record + field_offset > u32::MAX {
        (Err(GuestError::PtrOverflow), contents)
    } else {
        write_spec::<T>(base, contents, (record + field_offset) as u32, val)
    }
}

/// Reads one field of a record: the value of type `T` that lies
/// `field_offset` bytes behind the start of the record. A failure is
/// marked with the names of the record's type and of the field.
pub fn read_field<T: GuestType, M: GuestMemory>(
    mem: &M,
    record: u32,
    field_offset: u32,
    typename: &str,
    field: &str,
) -> (r: Result<T, GuestError>)
    ensures
        match field_read_spec::<T>(mem.base_addr(), mem.contents(), record, field_offset) {
            Ok(v) => r == Ok::<T, GuestError>(v),
            Err(cause) => r matches Err(e) && is_in_data_field(e, typename@, field@, cause),
        },
{
    let at = match record.checked_add(field_offset) {
        Some(at) => at,
        None => { return Err(in_data_field(typename, field, GuestError::PtrOverflow)); },
    };
    match T::read(mem, &GuestPtr::new(at)) {
        Ok(v) => Ok(v),
        Err(cause) => Err(in_data_field(typename, field, cause)),
    }
}

/// Writes one field of a record: the value `val` to the place
/// `field_offset` bytes behind the start of the record. A failure is
/// marked with the names of the record's type and of the field.
pub fn write_field<T: GuestType, M: GuestMemory>(
    mem: &mut M,
    record: u32,
    field_offset: u32,
    typename: &str,
    field: &str,
    val: T,
) -> (r: Result<(), GuestError>)
    ensures
        match field_write_spec::<T>(
            old(mem).base_addr(),
            old(mem).contents(),
            record,
            field_offset,
            val,
        ).0 {
            Ok(_) => r is Ok,
            Err(cause) => r matches Err(e) && is_in_data_field(e, typename@, field@, cause),
        },
        final(mem).contents() == field_write_spec::<T>(
            old(mem).base_addr(),
            old(mem).contents(),
            record,
            field_offset,
            val,
        ).1,
        final(mem).base_addr() == old(mem).base_addr(),
{
    let at = match record.checked_add(field_offset) {
        Some(at) => at,
        None => { return Err(in_data_field(typename, field, GuestError::PtrOverflow)); },
    };
    match T::write(mem, &GuestPtr::new(at), val) {
        Ok(_) => Ok(()),
        Err(cause) => Err(in_data_field(typename, field, cause)),
    }
}

/// What reading a union of `size` bytes, aligned to `align`, at `offset`
/// must give: its bytes as they lie in memory, or the failure of the
/// bounds and alignment check. Which arm the bytes stand for is not looked at.
pub open spec fn union_read_spec(
    base: usize,
    contents: Seq<u8>,
    offset: u32,
    size: u32,
    align: usize,
) -> Result<Seq<u8>, GuestError> {
    match validate_spec(base, contents.len(), offset, align, size) {
        Err(e) => Err(e),
        Ok(_) => Ok(contents.subrange(offset as int, offset + size)),
    }
}

/// Reads the bytes of a union of `size` bytes, aligned to `align`.
pub fn read_union<M: GuestMemory>(mem: &M, offset: u32, size: u32, align: usize) -> (r: Result<
    Vec<u8>,
    GuestError,
>)
    requires
        align > 0,
    ensures
        match union_read_spec(mem.base_addr(), mem.contents(), offset, size, align) {
            Ok(bytes) => r matches Ok(v) && v@ == bytes,
            Err(e) => r == Err::<Vec<u8>, GuestError>(e),
        },
{
    match mem.validate_size_align(offset, align, size) {
        Err(e) => Err(e),
        Ok(_) => Ok(read_bytes(mem, offset, size)),
    }
}

/// Writes the bytes of a union, aligned to `align`, in place of those at
/// `offset`.
pub fn write_union<M: GuestMemory>(mem: &mut M, offset: u32, bytes: &Vec<u8>, align: usize) -> (r:
    Result<(), GuestError>)
    requires
        align > 0,
        bytes@.len() <= u32::MAX,
    ensures
        r == (match validate_spec(
            old(mem).base_addr(),
            old(mem).contents().len(),
            offset,
            align,
            bytes@.len() as u32,
        ) {
            Ok(_) => Ok::<(), GuestError>(()),
            Err(e) => Err::<(), GuestError>(e),
        }),
        final(mem).contents() == (if r is Ok {
            splice(old(mem).contents(), offset as int, bytes@)
        } else {
            old(mem).contents()
        }),
        final(mem).base_addr() == old(mem).base_addr(),
{
    match mem.validate_size_align(offset, align, bytes.len() as u32) {
        Err(e) => Err(e),
        Ok(_) => {
            write_bytes(mem, offset, bytes);
            Ok(())
        },
    }
}

/// Turns a failure of the access layer inside an imported function into
/// the code that the function returns: the failure is marked with the
/// name of the function and the place in it, and handed to `from_error`.
pub fn fail<E: GuestErrorType>(
    funcname: &str,
    location: &str,
    cause: GuestError,
    ctx: &mut E::Context,
) -> (r: E)
    ensures
        exists|e: GuestError| #[trigger]
            is_in_func(e, funcname@, location@, cause) && E::from_error_spec(
                e,
                *old(ctx),
                *final(ctx),
                r,
            ),
{
    let e = in_func(funcname, location, cause);
    let ghost marked = e;
    let r = E::from_error(e, ctx);
    assert(is_in_func(marked, funcname@, location@, cause));
    r
}

/// Ends an imported function after its results were written: with the
/// code for success where that went well, and without touching the
/// context; else with the code that `fail` gives for the failure.
pub fn finish<E: GuestErrorType>(
    funcname: &str,
    location: &str,
    written: Result<(), GuestError>,
    ctx: &mut E::Context,
) -> (r: E)
    ensures
        match written {
            Ok(_) => r == E::success_spec() && *final(ctx) == *old(ctx),
            Err(cause) => exists|e: GuestError| #[trigger]
                is_in_func(e, funcname@, location@, cause) && E::from_error_spec(
                    e,
                    *old(ctx),
                    *final(ctx),
                    r,
                ),
        },
{
    match written {
        Ok(_) => E::success(),
        Err(cause) => fail::<E>(funcname, location, cause, ctx),
    }
}

} // verus!
