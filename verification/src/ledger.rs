//! The typed records that decoding produces: transactions, their messages
//! and the instructions of a message.

use vstd::prelude::*;
use crate::identifier::{Pubkey, Signature};
use crate::outcome::views;

verus! {

/// The signing and permission layout of a message's account keys.
#[derive(Clone, Copy, Debug, PartialEq, Eq)]
pub struct MessageHeader {
    /// How many signatures the message requires.
    pub num_required_signatures: u8,
    /// How many of the signing accounts are read-only.
    pub num_readonly_signed_accounts: u8,
    /// How many of the accounts that do not sign are read-only.
    pub num_readonly_unsigned_accounts: u8,
}

/// One instruction of a message. Its indices point into the account keys of
/// the message; nothing here checks that they are in range.
#[derive(Clone, Debug, PartialEq, Eq)]
pub struct CompiledInstruction {
    /// The index of the program's account.
    pub program_id_index: u8,
    /// The indices of the accounts handed to the program.
    pub accounts: Vec<u8>,
    /// The payload handed to the program.
    pub data: Vec<u8>,
}

/// What an instruction holds.
pub struct InstructionView {
    pub program_id_index: u8,
    pub accounts: Seq<u8>,
    pub data: Seq<u8>,
}

impl View for CompiledInstruction {
    type V = InstructionView;

    open spec fn view(&self) -> InstructionView {
        InstructionView {
            program_id_index: self.program_id_index,
            accounts: self.accounts@,
            data: self.data@,
        }
    }
}

/// The signable body of a transaction.
#[derive(Clone, Debug, PartialEq, Eq)]
pub struct Message {
    /// The layout of the account keys.
    pub header: MessageHeader,
    /// The accounts that the instructions refer to.
    pub account_keys: Vec<Pubkey>,
    /// The hash of a recent block.
    pub recent_blockhash: crate::identifier::Hash,
    /// The instructions, in the order in which they run.
    pub instructions: Vec<CompiledInstruction>,
}

/// What a message holds.
pub struct MessageView {
    pub header: MessageHeader,
    pub account_keys: Seq<Seq<u8>>,
    pub recent_blockhash: Seq<u8>,
    pub instructions: Seq<InstructionView>,
}

impl View for Message {
    type V = MessageView;

    open spec fn view(&self) -> MessageView {
        MessageView {
            header: self.header,
            account_keys: views(self.account_keys@),
            recent_blockhash: self.recent_blockhash@,
            instructions: views(self.instructions@),
        }
    }
}

/// One message with the signatures that authorise it.
#[derive(Clone, Debug, PartialEq, Eq)]
pub struct Transaction {
    /// The signatures, in the order of the signing accounts.
    pub signatures: Vec<Signature>,
    /// The message that they sign.
    pub message: Message,
}

/// What a transaction holds.
pub struct TransactionView {
    pub signatures: Seq<Seq<u8>>,
    pub message: MessageView,
}

impl View for Transaction {
    type V = TransactionView;

    open spec fn view(&self) -> TransactionView {
        TransactionView { signatures: views(self.signatures@), message: self.message@ }
    }
}

} // verus!
