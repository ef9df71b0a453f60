//! The messages of the invariant violations.
//!
//! Each function renders the message of one kind of violation, naming the
//! quantities that disagree. Numbers are written in decimal.
use vstd::prelude::*;

verus! {

/// An integer of any of the primitive integer types, widened.
#[derive(Clone, Copy, Debug, PartialEq, Eq, Structural)]
pub enum BoundValue {
    /// An integer of a signed type.
    Signed(i128),
    /// An integer of an unsigned type.
    Unsigned(u128),
}

impl BoundValue {
    /// The integer that this stands for.
    pub open spec fn as_int(self) -> int {
        match self {
            BoundValue::Signed(n) => n as int,
            BoundValue::Unsigned(n) => n as int,
        }
    }
}

/// The character of the decimal digit `d`.
pub open spec fn digit_char(d: nat) -> char
    recommends
        d < 10,
{
    ((48 + d) as u8) as char
}

/// The decimal digits of `n`, most significant first, without leading zeros.
pub open spec fn decimal(n: nat) -> Seq<char>
    decreases n,
{
    if n < 10 {
        seq![digit_char(n)]
    } else {
        decimal(n / 10).push(digit_char(n % 10))
    }
}

/// The decimal digits of `n`, after a minus sign where `n` is negative.
pub open spec fn signed_decimal(n: int) -> Seq<char> {
    if n < 0 {
        seq!['-'] + decimal((-n) as nat)
    } else {
        decimal(n as nat)
    }
}

/// Renders `n` with `const_panic::PanicVal::from_usize` and the debug
/// formatting, written out with `const_panic::ArrayString::from_panicvals`.
/// The text is the decimal digits of `n`. They are 20 at most; the buffer
/// holds 64 bytes, so that `from_panicvals` has room for every `n`.
#[verifier::external_body]
pub(crate) fn format_usize(n: usize) -> (text: String)
    ensures
        text@ == decimal(n as nat),
{
    let vals = [const_panic::PanicVal::from_usize(n, const_panic::FmtArg::DEBUG)];
    match const_panic::ArrayString::<64>::from_panicvals(&vals) {
        Some(rendered) => rendered.to_str().to_string(),
        None => String::new(),
    }
}

/// Renders `n` with `const_panic::PanicVal::from_u128` and the debug
/// formatting, written out with `const_panic::ArrayString::from_panicvals`.
/// The text is the decimal digits of `n`. They are 39 at most; the buffer
/// holds 64 bytes.
#[verifier::external_body]
pub(crate) fn format_u128(n: u128) -> (text: String)
    ensures
        text@ == decimal(n as nat),
{
    let vals = [const_panic::PanicVal::from_u128(n, const_panic::FmtArg::DEBUG)];
    match const_panic::ArrayString::<64>::from_panicvals(&vals) {
        Some(rendered) => rendered.to_str().to_string(),
        None => String::new(),
    }
}

/// Renders `n` with `const_panic::PanicVal::from_i128` and the debug
/// formatting, written out with `const_panic::ArrayString::from_panicvals`.
/// The text is a minus sign where `n` is negative, then the decimal digits of
/// the magnitude of `n`. They are 40 bytes at most; the buffer holds 64
/// bytes.
#[verifier::external_body]
pub(crate) fn format_i128(n: i128) -> (text: String)
    ensures
        text@ == signed_decimal(n as int),
{
    let vals = [const_panic::PanicVal::from_i128(n, const_panic::FmtArg::DEBUG)];
    match const_panic::ArrayString::<64>::from_panicvals(&vals) {
        Some(rendered) => rendered.to_str().to_string(),
        None => String::new(),
    }
}

/// The text of [`transmute_unequal_size_panic`].
pub open spec fn transmute_unequal_size_text(size_of_t: nat, size_of_u: nat) -> Seq<char> {
    "\nexpected transmute not to change the size,"@ + " size goes from: "@ + decimal(size_of_t)
        + " to: "@ + decimal(size_of_u)
}

/// The message for a reinterpretation between types of the sizes `size_of_t`
/// and `size_of_u`, which differ.
pub fn transmute_unequal_size_panic(size_of_t: usize, size_of_u: usize) -> (message: String)
    ensures
        message@ == transmute_unequal_size_text(size_of_t as nat, size_of_u as nat),
{
    let mut message = String::from_str("\nexpected transmute not to change the size,");
    message.append(" size goes from: ");
    message.append(format_usize(size_of_t).as_str());
    message.append(" to: ");
    message.append(format_usize(size_of_u).as_str());
    message
}

/// The text of [`transmute_unequal_align_panic`].
pub open spec fn transmute_unequal_align_text(align_of_t: nat, align_of_u: nat) -> Seq<char> {
    "\nexpected transmute not to change alignment,"@ + " alignment goes from: "@ + decimal(
        align_of_t,
    ) + " to: "@ + decimal(align_of_u)
}

/// The message for a reinterpretation behind a reference from a type aligned
/// to `align_of_t` into one aligned to `align_of_u`.
pub fn transmute_unequal_align_panic(align_of_t: usize, align_of_u: usize) -> (message: String)
    ensures
        message@ == transmute_unequal_align_text(align_of_t as nat, align_of_u as nat),
{
    let mut message = String::from_str("\nexpected transmute not to change alignment,");
    message.append(" alignment goes from: ");
    message.append(format_usize(align_of_t).as_str());
    message.append(" to: ");
    message.append(format_usize(align_of_u).as_str());
    message
}

/// The text of [`transmute_unequal_ptr_size_panic`].
pub open spec fn transmute_unequal_ptr_size_text(size_of_from: nat, size_of_to: nat) -> Seq<
    char,
> {
    "\nexpected transmute not to change the pointer size,"@ + " size goes from: "@ + decimal(
        size_of_from,
    ) + " to: "@ + decimal(size_of_to)
}

/// The message for a cast between references whose pointers have the sizes
/// `size_of_from` and `size_of_to`, which differ.
pub fn transmute_unequal_ptr_size_panic(size_of_from: usize, size_of_to: usize) -> (message:
    String)
    ensures
        message@ == transmute_unequal_ptr_size_text(size_of_from as nat, size_of_to as nat),
{
    let mut message = String::from_str("\nexpected transmute not to change the pointer size,");
    message.append(" size goes from: ");
    message.append(format_usize(size_of_from).as_str());
    message.append(" to: ");
    message.append(format_usize(size_of_to).as_str());
    message
}

/// The text of [`unequal_size_panic`].
pub open spec fn unequal_size_text(size_of_t: nat, size_of_u: nat) -> Seq<char> {
    "\nthe sizes of T and U are not the same"@ + "\nsize_of::<T>(): "@ + decimal(size_of_t)
        + "\nsize_of::<U>(): "@ + decimal(size_of_u)
}

/// The message for a cast from `T` into `U` whose sizes differ.
pub fn unequal_size_panic(size_of_t: usize, size_of_u: usize) -> (message: String)
    ensures
        message@ == unequal_size_text(size_of_t as nat, size_of_u as nat),
{
    let mut message = String::from_str("\nthe sizes of T and U are not the same");
    message.append("\nsize_of::<T>(): ");
    message.append(format_usize(size_of_t).as_str());
    message.append("\nsize_of::<U>(): ");
    message.append(format_usize(size_of_u).as_str());
    message
}

/// The text of [`unequal_bytes_size_panic`].
pub open spec fn unequal_bytes_size_text(size_of_slice: nat, size_of_t: nat) -> Seq<char> {
    "\nthe sizes of `T` and the slice are not the same"@ + "\nslice length: "@ + decimal(
        size_of_slice,
    ) + "\nsize_of::<T>(): "@ + decimal(size_of_t)
}

/// The message for reading a `T` out of a byte slice of another length.
pub fn unequal_bytes_size_panic(size_of_slice: usize, size_of_t: usize) -> (message: String)
    ensures
        message@ == unequal_bytes_size_text(size_of_slice as nat, size_of_t as nat),
{
    let mut message = String::from_str("\nthe sizes of `T` and the slice are not the same");
    message.append("\nslice length: ");
    message.append(format_usize(size_of_slice).as_str());
    message.append("\nsize_of::<T>(): ");
    message.append(format_usize(size_of_t).as_str());
    message
}

/// The text of [`incompatible_alignment_panic`].
pub open spec fn incompatible_alignment_text(align_of_t: nat, align_of_u: nat) -> Seq<char> {
    "\nthe alignment of `T` is lower than `U`"@ + "\nalign_of::<T>(): "@ + decimal(align_of_t)
        + "\nalign_of::<U>(): "@ + decimal(align_of_u)
}

/// The message for a cast behind a reference from `T` into a more aligned `U`.
pub fn incompatible_alignment_panic(align_of_t: usize, align_of_u: usize) -> (message: String)
    ensures
        message@ == incompatible_alignment_text(align_of_t as nat, align_of_u as nat),
{
    let mut message = String::from_str("\nthe alignment of `T` is lower than `U`");
    message.append("\nalign_of::<T>(): ");
    message.append(format_usize(align_of_t).as_str());
    message.append("\nalign_of::<U>(): ");
    message.append(format_usize(align_of_u).as_str());
    message
}

/// The message for a slice of `byte_size` bytes that is cast into elements
/// of `size_of_u` bytes, which leaves `excess_bytes` bytes over.
pub open spec fn slice_excess_text(byte_size: nat, size_of_u: nat, excess_bytes: nat) -> Seq<char> {
    "\nthe input slice of `T` doesn't divide evenly into a slice of `U`s"@
        + "\nslice.len() * size_of::<T>(): "@ + decimal(byte_size) + "\nsize_of::<U>(): "@
        + decimal(size_of_u) + "\nexcess bytes: "@ + decimal(excess_bytes)
}

/// The text of [`slice_does_not_divide_evenly_panic`].
pub open spec fn slice_does_not_divide_evenly_text(
    slice_len: nat,
    size_of_t: nat,
    size_of_u: nat,
) -> Seq<char> {
    slice_excess_text(slice_len * size_of_t, size_of_u, (slice_len * size_of_t) % size_of_u)
}

/// Renders [`slice_excess_text`].
pub(crate) fn slice_excess_message(byte_size: usize, size_of_u: usize, excess_bytes: usize) -> (message:
    String)
    ensures
        message@ == slice_excess_text(byte_size as nat, size_of_u as nat, excess_bytes as nat),
{
    let mut message = String::from_str(
        "\nthe input slice of `T` doesn't divide evenly into a slice of `U`s",
    );
    message.append("\nslice.len() * size_of::<T>(): ");
    message.append(format_usize(byte_size).as_str());
    message.append("\nsize_of::<U>(): ");
    message.append(format_usize(size_of_u).as_str());
    message.append("\nexcess bytes: ");
    message.append(format_usize(excess_bytes).as_str());
    message
}

/// The message for a cast of `slice_len` elements of `size_of_t` bytes into
/// elements of `size_of_u` bytes, where bytes are left over.
pub fn slice_does_not_divide_evenly_panic(
    slice_len: usize,
    size_of_t: usize,
    size_of_u: usize,
) -> (message: String)
    requires
        slice_len * size_of_t <= usize::MAX,
        size_of_u != 0,
    ensures
        message@ == slice_does_not_divide_evenly_text(
            slice_len as nat,
            size_of_t as nat,
            size_of_u as nat,
        ),
{
    let byte_size: usize = slice_len * size_of_t;
    slice_excess_message(byte_size, size_of_u, byte_size % size_of_u)
}

/// The text of [`slice_cast_zst_panic`].
pub open spec fn slice_cast_zst_text(size_of_t: nat, size_of_u: nat) -> Seq<char> {
    (if size_of_t == 0 {
        "\nattempted to cast slice of zero-sized `T` to slice of non-zero-sized `U`"@
    } else {
        "\nattempted to cast slice of non-zero-sized `T` to slice of zero-sized `U`"@
    }) + "\nsize_of::<T>(): "@ + decimal(size_of_t) + "\nsize_of::<U>(): "@ + decimal(size_of_u)
}

/// The message for a slice cast where one element type is zero-sized and
/// the other is not.
pub fn slice_cast_zst_panic(size_of_t: usize, size_of_u: usize) -> (message: String)
    ensures
        message@ == slice_cast_zst_text(size_of_t as nat, size_of_u as nat),
{
    let mut message = if size_of_t == 0 {
        String::from_str(
            "\nattempted to cast slice of zero-sized `T` to slice of non-zero-sized `U`",
        )
    } else {
        String::from_str(
            "\nattempted to cast slice of non-zero-sized `T` to slice of zero-sized `U`",
        )
    };
    message.append("\nsize_of::<T>(): ");
    message.append(format_usize(size_of_t).as_str());
    message.append("\nsize_of::<U>(): ");
    message.append(format_usize(size_of_u).as_str());
    message
}

/// The text of [`panic_impossible_bounds`].
pub open spec fn impossible_bounds_text(min_value: int, max_value: int) -> Seq<char> {
    "\n`T` implements `Contiguous` where `T::MIN_VALUE` is larger than `T::MAX_VALUE`"@
        + "\nT::MIN_VALUE: "@ + signed_decimal(min_value) + "\nT::MAX_VALUE: "@ + signed_decimal(
        max_value,
    )
}

fn format_bound(value: BoundValue) -> (text: String)
    ensures
        text@ == signed_decimal(value.as_int()),
{
    match value {
        BoundValue::Signed(n) => format_i128(n),
        BoundValue::Unsigned(n) => format_u128(n),
    }
}

/// The message for bounds of a contiguous type whose minimum lies above
/// their maximum.
pub fn panic_impossible_bounds(min_value: BoundValue, max_value: BoundValue) -> (message: String)
    ensures
        message@ == impossible_bounds_text(min_value.as_int(), max_value.as_int()),
{
    let mut message = String::from_str(
        "\n`T` implements `Contiguous` where `T::MIN_VALUE` is larger than `T::MAX_VALUE`",
    );
    message.append("\nT::MIN_VALUE: ");
    message.append(format_bound(min_value).as_str());
    message.append("\nT::MAX_VALUE: ");
    message.append(format_bound(max_value).as_str());
    message
}

/// The text of [`zeroed_too_large_panic`].
pub open spec fn zeroed_too_large_text(max_size: nat, size: nat) -> Seq<char> {
    "\n`constmuck::zeroed` can only instantiate types up to "@ + decimal(max_size)
        + " bytes large, but the type is "@ + decimal(size) + " bytes large"@
}

/// The message for zero-filling a type of `size` bytes, more than the
/// `max_size` bytes of the largest buffer.
pub fn zeroed_too_large_panic(max_size: usize, size: usize) -> (message: String)
    ensures
        message@ == zeroed_too_large_text(max_size as nat, size as nat),
{
    let mut message = String::from_str("\n`constmuck::zeroed` can only instantiate types up to ");
    message.append(format_usize(max_size).as_str());
    message.append(" bytes large, but the type is ");
    message.append(format_usize(size).as_str());
    message.append(" bytes large");
    message
}

} // verus!
