use vstd::prelude::*;
use vstd::utf8::{decode_utf8, valid_utf8};
use crate::codec::{copy_range, key_at, u32_at, u32_read, utf8_string};
use crate::state::Pubkey;

verus! {

/// What a decoded command holds.
pub ghost enum InstructionView {
    CreateBatch { batch_id: Seq<char> },
    TransferOwnership { new_owner: Seq<u8> },
    VerifyBatch,
}

/// The command that the whole byte string `s` encodes: a one-byte tag, then
/// a length-prefixed UTF-8 identifier (tag 0), a 32-byte key (tag 1) or
/// nothing (tag 2). Trailing bytes make the string malformed.
pub open spec fn parse_instruction(s: Seq<u8>) -> Option<InstructionView> {
    if s.len() == 0 {
        None
    } else if s[0] == 0 {
        if s.len() < 5 || s.len() != 5 + u32_at(s, 1) || !valid_utf8(s.subrange(5, s.len() as int)) {
            None
        } else {
            Some(InstructionView::CreateBatch { batch_id: decode_utf8(s.subrange(5, s.len() as int)) })
        }
    } else if s[0] == 1 {
        if s.len() == 33 {
            Some(InstructionView::TransferOwnership { new_owner: s.subrange(1, 33) })
        } else {
            None
        }
    } else if s[0] == 2 {
        if s.len() == 1 {
            Some(InstructionView::VerifyBatch)
        } else {
            None
        }
    } else {
        None
    }
}

/// A command to the batch ledger.
#[derive(Clone, Debug)]
pub enum MedWeb3Instruction {
    /// Create a batch; its manufacturer is the paying signer.
    CreateBatch { batch_id: String },
    /// Hand a batch to a new owner; the batch slot comes as an account.
    TransferOwnership { new_owner: Pubkey },
    /// Read a batch back and report its lineage.
    VerifyBatch,
}

impl View for MedWeb3Instruction {
    type V = InstructionView;

    open spec fn view(&self) -> InstructionView {
        match self {
            MedWeb3Instruction::CreateBatch { batch_id } => InstructionView::CreateBatch {
                batch_id: batch_id@,
            },
            MedWeb3Instruction::TransferOwnership { new_owner } =>
                InstructionView::TransferOwnership { new_owner: new_owner@ },
            MedWeb3Instruction::VerifyBatch => InstructionView::VerifyBatch,
        }
    }
}

impl MedWeb3Instruction {
    /// Decodes a command envelope.
    pub fn unpack(input: &[u8]) -> (r: Result<MedWeb3Instruction, &'static str>)
        ensures
            match r {
                Ok(i) => parse_instruction(input@) == Some(i@),
                Err(_) => parse_instruction(input@) is None,
            },
    {
        let malformed = "Failed to deserialize instruction data";
        let len = input.len();
        if len == 0 {
            return Err(malformed);
        }
        let tag = input[0];
        if tag == 0 {
            if len < 5 {
                return Err(malformed);
            }
            let n = u32_read(input, 1) as usize;
            if n != len - 5 {
                return Err(malformed);
            }
            match utf8_string(copy_range(input, 5, len)) {
                Some(batch_id) => Ok(MedWeb3Instruction::CreateBatch { batch_id }),
                None => Err(malformed),
            }
        } else if tag == 1 {
            if len != 33 {
                return Err(malformed);
            }
            Ok(MedWeb3Instruction::TransferOwnership { new_owner: key_at(input, 1) })
        } else if tag == 2 {
            if len != 1 {
                return Err(malformed);
            }
            Ok(MedWeb3Instruction::VerifyBatch)
        } else {
            Err(malformed)
        }
    }
}

} // verus!
