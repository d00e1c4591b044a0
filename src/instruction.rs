//! Commands: a tag byte followed by the operation's length-prefixed text fields.
use vstd::prelude::*;
use vstd::utf8::valid_utf8;

use crate::codec::{parse_text, read_text};
use crate::error::ReviewError;

verus! {

/// A decoded command. Text fields hold UTF-8 bytes.
#[derive(Debug, Clone)]
pub enum StudInstruction {
    AddStudent { name: Vec<u8>, message: Vec<u8> },
    UpdateStudent { name: Vec<u8>, message: Vec<u8> },
    AddComment { message: Vec<u8> },
}

pub ghost enum InstructionModel {
    AddStudent { name: Seq<u8>, message: Seq<u8> },
    UpdateStudent { name: Seq<u8>, message: Seq<u8> },
    AddComment { message: Seq<u8> },
}

impl View for StudInstruction {
    type V = InstructionModel;

    open spec fn view(&self) -> InstructionModel {
        match self {
            StudInstruction::AddStudent { name, message } => InstructionModel::AddStudent {
                name: name@,
                message: message@,
            },
            StudInstruction::UpdateStudent { name, message } => InstructionModel::UpdateStudent {
                name: name@,
                message: message@,
            },
            StudInstruction::AddComment { message } => InstructionModel::AddComment {
                message: message@,
            },
        }
    }
}

/// Relies on std's `str::from_utf8`: it succeeds exactly when the bytes are
/// well-formed UTF-8.
#[verifier::external_body]
fn is_utf8(b: &[u8]) -> (r: bool)
    ensures
        r == valid_utf8(b@),
{
    std::str::from_utf8(b).is_ok()
}

/// One UTF-8 text field that takes up all of `d`.
pub open spec fn parse_one_text(d: Seq<u8>) -> Option<Seq<u8>> {
    match parse_text(d) {
        Some((t, rest)) => if rest.len() == 0 && valid_utf8(t) {
            Some(t)
        } else {
            None
        },
        None => None,
    }
}

/// Two UTF-8 text fields that take up all of `d`.
pub open spec fn parse_two_texts(d: Seq<u8>) -> Option<(Seq<u8>, Seq<u8>)> {
    match parse_text(d) {
        Some((a, rest)) => if valid_utf8(a) {
            match parse_one_text(rest) {
                Some(b) => Some((a, b)),
                None => None,
            }
        } else {
            None
        },
        None => None,
    }
}

/// What a command buffer decodes to: tag 0 adds a record, tag 1 updates it,
/// tag 2 adds a comment; any other tag is unsupported, and an empty buffer or
/// a payload that is not exactly the tag's fields is malformed.
pub open spec fn parse_instruction(d: Seq<u8>) -> Result<InstructionModel, ReviewError> {
    if d.len() == 0 {
        Err(ReviewError::MalformedPayload)
    } else if d[0] > 2 {
        Err(ReviewError::UnsupportedOperation)
    } else {
        let payload = d.subrange(1, d.len() as int);
        if d[0] == 2 {
            match parse_one_text(payload) {
                Some(m) => Ok(InstructionModel::AddComment { message: m }),
                None => Err(ReviewError::MalformedPayload),
            }
        } else {
            match parse_two_texts(payload) {
                Some((n, m)) => if d[0] == 0 {
                    Ok(InstructionModel::AddStudent { name: n, message: m })
                } else {
                    Ok(InstructionModel::UpdateStudent { name: n, message: m })
                },
                None => Err(ReviewError::MalformedPayload),
            }
        }
    }
}

/// The longest text that a length prefix can announce.
pub open spec fn texts_fit(i: InstructionModel) -> bool {
    match i {
        InstructionModel::AddStudent { name, message } => name.len() <= u32::MAX && message.len()
            <= u32::MAX,
        InstructionModel::UpdateStudent { name, message } => name.len() <= u32::MAX
            && message.len() <= u32::MAX,
        InstructionModel::AddComment { message } => message.len() <= u32::MAX,
    }
}

pub proof fn lemma_parsed_texts_fit(d: Seq<u8>)
    ensures
        parse_instruction(d) matches Ok(i) ==> texts_fit(i),
{
}

/// Reads one UTF-8 text field at `at`; it must end where `d` ends.
fn read_last_text(d: &[u8], at: usize) -> (r: Option<Vec<u8>>)
    requires
        at <= d@.len(),
    ensures
        match r {
            Some(t) => parse_one_text(d@.subrange(at as int, d@.len() as int)) == Some(t@),
            None => parse_one_text(d@.subrange(at as int, d@.len() as int)) is None,
        },
{
    match read_text(d, at) {
        None => None,
        Some((t, next)) => {
            if next != d.len() || !is_utf8(t.as_slice()) {
                None
            } else {
                Some(t)
            }
        },
    }
}

impl StudInstruction {
    /// Decodes a command buffer.
    pub fn unpack(input: &[u8]) -> (r: Result<StudInstruction, ReviewError>)
        ensures
            match parse_instruction(input@) {
                Ok(m) => r matches Ok(i) && i@ == m,
                Err(e) => r == Err::<StudInstruction, ReviewError>(e),
            },
    {
        let total: usize = input.len();
        if total == 0 {
            return Err(ReviewError::MalformedPayload);
        }
        let tag = input[0];
        if tag > 2 {
            return Err(ReviewError::UnsupportedOperation);
        }
        let ghost payload = input@.subrange(1, total as int);
        if tag == 2 {
            return match read_last_text(input, 1) {
                Some(m) => Ok(StudInstruction::AddComment { message: m }),
                None => Err(ReviewError::MalformedPayload),
            };
        }
        let (name, next) = match read_text(input, 1) {
            Some(x) => x,
            None => return Err(ReviewError::MalformedPayload),
        };
        if !is_utf8(name.as_slice()) {
            return Err(ReviewError::MalformedPayload);
        }
        let message = match read_last_text(input, next) {
            Some(m) => m,
            None => return Err(ReviewError::MalformedPayload),
        };
        assert(parse_two_texts(payload) == Some((name@, message@)));
        if tag == 0 {
            Ok(StudInstruction::AddStudent { name, message })
        } else {
            Ok(StudInstruction::UpdateStudent { name, message })
        }
    }
}

} // verus!
