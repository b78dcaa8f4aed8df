//! The Kenwood-dialect CAT protocol: commands are an ASCII command identifier followed by
//! argument bytes and the terminator `;`, and responses echo the identifier before their value.

use vstd::prelude::*;

use crate::error::{Failure, RigError};
use crate::protocol::cat::common::{
    ASCII_SIGN_NEGATIVE, ASCII_SIGN_POSITIVE, decimal_string, format_int_ascii, format_uint_ascii,
    response_value, spec_u32_field, spec_validate_response, validate_integer_in_range,
};
use crate::protocol::cat::digits::{lemma_padded_decimal_value, padded_decimal};

pub mod common;
pub mod digits;
pub mod elecraft;

verus! {

/// The byte that ends every CAT command and response, `;`.
pub const MESSAGE_TERMINATOR: u8 = 0x3B;

/// A command on the wire: its identifier, its argument bytes, and the terminator.
pub open spec fn frame(command_id: Seq<u8>, args: Seq<u8>) -> Seq<u8> {
    command_id + args + seq![MESSAGE_TERMINATOR]
}

/// Builds a command from its identifier and argument bytes.
pub fn frame_command(command_id: &[u8], args: &[u8]) -> (r: Vec<u8>)
    ensures
        r@ == frame(command_id@, args@),
{
    let mut bytes = vstd::slice::slice_to_vec(command_id);
    let mut tail = vstd::slice::slice_to_vec(args);
    bytes.append(&mut tail);
    bytes.push(MESSAGE_TERMINATOR);
    bytes
}

/// The argument of a numeric setting, written as an unsigned field of `width` digits.
pub open spec fn uint_args(value: u32, width: usize) -> Seq<u8> {
    padded_decimal(value as nat, width as nat)
}

/// The argument of a signed setting: its sign and its magnitude in `width` digits.
pub open spec fn int_args(value: i16, width: usize) -> Seq<u8> {
    seq![if value < 0 { ASCII_SIGN_NEGATIVE } else { ASCII_SIGN_POSITIVE }] + padded_decimal(
        (if value < 0 { -value } else { value as int }) as nat,
        width as nat,
    )
}

/// Builds a numeric setting command after checking that the value is in `min..=max`.
pub fn encode_uint_in_range(
    command_id: &[u8],
    argument_name: &'static str,
    value_type: &'static str,
    value: u32,
    min: u32,
    max: u32,
    width: usize,
) -> (r: Result<Vec<u8>, RigError>)
    ensures
        min <= value <= max ==> (r matches Ok(b) && b@ == frame(command_id@, uint_args(value, width))),
        !(min <= value <= max) ==> (r matches Err(e) && e.fails_with(
            Failure::ArgumentValue(argument_name@, value_type@, decimal_string(value as int)),
        )),
{
    match validate_integer_in_range(argument_name, value_type, value as i64, min as i64, max as i64) {
        Ok(()) => {
            let args = format_uint_ascii(value as u64, width);
            Ok(frame_command(command_id, args.as_slice()))
        },
        Err(e) => Err(e),
    }
}

/// Builds a signed setting command after checking that the value is in `min..=max`.
pub fn encode_int_in_range(
    command_id: &[u8],
    argument_name: &'static str,
    value_type: &'static str,
    value: i16,
    min: i16,
    max: i16,
    width: usize,
) -> (r: Result<Vec<u8>, RigError>)
    requires
        min > i16::MIN,
    ensures
        min <= value <= max ==> (r matches Ok(b) && b@ == frame(command_id@, int_args(value, width))),
        !(min <= value <= max) ==> (r matches Err(e) && e.fails_with(
            Failure::ArgumentValue(argument_name@, value_type@, decimal_string(value as int)),
        )),
{
    match validate_integer_in_range(argument_name, value_type, value as i64, min as i64, max as i64) {
        Ok(()) => {
            let args = format_int_ascii(value, width);
            Ok(frame_command(command_id, args.as_slice()))
        },
        Err(e) => Err(e),
    }
}

/// A reply that echoes a command's frame reads back as the command's argument: validating
/// `frame(id, value)` against `id` and the length of `value` gives `value`.
pub proof fn lemma_framed_value_reads_back(command_id: Seq<u8>, value: Seq<u8>)
    ensures
        spec_validate_response(frame(command_id, value), command_id, value.len())
            == Ok::<Seq<u8>, Failure>(value),
{
    let bytes = frame(command_id, value);
    assert(bytes.take(command_id.len() as int) =~= command_id);
    assert(response_value(bytes, command_id) =~= value);
}

/// An unsigned argument written in `width` digits reads back as the same number, for any width.
pub proof fn lemma_uint_args_read_back(value: u32, width: usize)
    ensures
        spec_u32_field(uint_args(value, width)) == Ok::<u32, Failure>(value),
{
    lemma_padded_decimal_value(value as nat, width as nat);
}

/// A framed command starts with its identifier, continues with its arguments and ends with `;`.
pub proof fn lemma_frame_layout(command_id: Seq<u8>, args: Seq<u8>)
    ensures
        frame(command_id, args).len() == command_id.len() + args.len() + 1,
        frame(command_id, args).take(command_id.len() as int) == command_id,
        frame(command_id, args).subrange(command_id.len() as int, (command_id.len() + args.len()) as int)
            == args,
        frame(command_id, args).last() == 0x3B,
{
    let f = frame(command_id, args);
    assert(f.take(command_id.len() as int) =~= command_id);
    assert(f.subrange(command_id.len() as int, (command_id.len() + args.len()) as int) =~= args);
}

} // verus!
