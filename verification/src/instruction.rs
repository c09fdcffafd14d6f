use vstd::prelude::*;

verus! {

/// Instructions are single-byte commands followed by a well-defined amount
/// of data. They are sent as the first byte of an APDU to the card.
#[derive(Copy, Clone, Debug, PartialEq, Eq, Structural)]
pub enum Instruction {
    /// Get the next hunk of data, after an AdditionalData reply.
    AdditionalData,
    /// Get key settings for the open Application
    GetKeySettings,
    /// Change the key settings of the open Application
    ChangeKeySettings,
    /// Get the key version for a Key ID
    GetKeyVersion,
    /// Authenticate with the Card (DES)
    AuthenticateDes,
    /// Authenticate with the Card (AES)
    AuthenticateAes,
    /// Change the key for a specific key slot.
    ChangeKey,
    /// Get the amount of free memory on the card
    GetFreeMemory,
    /// Request the card version
    GetVersionInfo,
    /// Get the installed Application IDs.
    GetApplicationIdList,
    /// Get the card's real UID
    GetUid,
    /// Set a bit of card configuration.
    SetConfiguration,
    /// Format the Card
    FormatCard,
    /// Select an application
    SelectApplication,
    /// Create an application
    CreateApplication,
    /// Delete an application
    DeleteApplication,
    /// Create a data file
    CreateDataFile,
    /// Write to a Data File
    WriteDataFile,
    /// Read a Data File
    ReadDataFile,
    /// Get file settings back off the card
    GetFileSettings,
    /// List files in an application
    ListFiles,
    /// Delete a file
    DeleteFile,
}

/// The opcode byte of an instruction.
pub open spec fn instruction_byte(i: Instruction) -> u8 {
    match i {
        Instruction::AdditionalData => 0xAF,
        Instruction::GetKeySettings => 0x45,
        Instruction::ChangeKeySettings => 0x54,
        Instruction::GetKeyVersion => 0x64,
        Instruction::AuthenticateDes => 0x1A,
        Instruction::AuthenticateAes => 0xAA,
        Instruction::ChangeKey => 0xC4,
        Instruction::GetFreeMemory => 0x6E,
        Instruction::GetVersionInfo => 0x60,
        Instruction::GetApplicationIdList => 0x6A,
        Instruction::GetUid => 0x51,
        Instruction::SetConfiguration => 0x5C,
        Instruction::FormatCard => 0xFC,
        Instruction::SelectApplication => 0x5A,
        Instruction::CreateApplication => 0xCA,
        Instruction::DeleteApplication => 0xDA,
        Instruction::CreateDataFile => 0xCD,
        Instruction::WriteDataFile => 0x3D,
        Instruction::ReadDataFile => 0xBD,
        Instruction::GetFileSettings => 0xF5,
        Instruction::ListFiles => 0x6F,
        Instruction::DeleteFile => 0xDF,
    }
}

impl Instruction {
    /// The opcode byte of this instruction, as sent over the wire.
    pub fn as_u8(&self) -> (r: u8)
        ensures
            r == instruction_byte(*self),
    {
        match self {
            Instruction::AdditionalData => 0xAF,
            Instruction::GetKeySettings => 0x45,
            Instruction::ChangeKeySettings => 0x54,
            Instruction::GetKeyVersion => 0x64,
            Instruction::AuthenticateDes => 0x1A,
            Instruction::AuthenticateAes => 0xAA,
            Instruction::ChangeKey => 0xC4,
            Instruction::GetFreeMemory => 0x6E,
            Instruction::GetVersionInfo => 0x60,
            Instruction::GetApplicationIdList => 0x6A,
            Instruction::GetUid => 0x51,
            Instruction::SetConfiguration => 0x5C,
            Instruction::FormatCard => 0xFC,
            Instruction::SelectApplication => 0x5A,
            Instruction::CreateApplication => 0xCA,
            Instruction::DeleteApplication => 0xDA,
            Instruction::CreateDataFile => 0xCD,
            Instruction::WriteDataFile => 0x3D,
            Instruction::ReadDataFile => 0xBD,
            Instruction::GetFileSettings => 0xF5,
            Instruction::ListFiles => 0x6F,
            Instruction::DeleteFile => 0xDF,
        }
    }
}

/// The opcode that each instruction is sent as, on the wire.
pub proof fn lemma_instruction_opcodes()
    ensures
        instruction_byte(Instruction::AdditionalData) == 0xAFu8,
        instruction_byte(Instruction::GetKeySettings) == 0x45u8,
        instruction_byte(Instruction::ChangeKeySettings) == 0x54u8,
        instruction_byte(Instruction::GetKeyVersion) == 0x64u8,
        instruction_byte(Instruction::AuthenticateDes) == 0x1Au8,
        instruction_byte(Instruction::AuthenticateAes) == 0xAAu8,
        instruction_byte(Instruction::ChangeKey) == 0xC4u8,
        instruction_byte(Instruction::GetFreeMemory) == 0x6Eu8,
        instruction_byte(Instruction::GetVersionInfo) == 0x60u8,
        instruction_byte(Instruction::GetApplicationIdList) == 0x6Au8,
        instruction_byte(Instruction::GetUid) == 0x51u8,
        instruction_byte(Instruction::SetConfiguration) == 0x5Cu8,
        instruction_byte(Instruction::FormatCard) == 0xFCu8,
        instruction_byte(Instruction::SelectApplication) == 0x5Au8,
        instruction_byte(Instruction::CreateApplication) == 0xCAu8,
        instruction_byte(Instruction::DeleteApplication) == 0xDAu8,
        instruction_byte(Instruction::CreateDataFile) == 0xCDu8,
        instruction_byte(Instruction::WriteDataFile) == 0x3Du8,
        instruction_byte(Instruction::ReadDataFile) == 0xBDu8,
        instruction_byte(Instruction::GetFileSettings) == 0xF5u8,
        instruction_byte(Instruction::ListFiles) == 0x6Fu8,
        instruction_byte(Instruction::DeleteFile) == 0xDFu8,
{
}

} // verus!
