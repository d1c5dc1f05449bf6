use vstd::prelude::*;

verus! {

/// The operations that the device knows.
#[derive(Debug, Clone, Copy, PartialEq, Eq, Structural)]
pub enum Command {
    Reset,
    GetFirmwareVersion,
    GetDeviceModel,
    SetBCP,
    SetBPI,
    SetHiCo,
    SetLoCo,
    SetLeadingZeros,
    SetReadModeOnFormatISO,
    SetISOReadModeOn,
    SetReadModeOff,
    TurnLedAllOn,
    TurnLedRedOn,
    TurnLedGreenOn,
    TurnLedYellowOn,
    TurnLedAllOff,
}

impl Command {
    /// The second byte of the command; ESC is the first.
    pub open spec fn code(self) -> u8 {
        match self {
            Command::Reset => 0x61,
            Command::GetFirmwareVersion => 0x76,
            Command::GetDeviceModel => 0x74,
            Command::SetBCP => 0x6f,
            Command::SetBPI => 0x62,
            Command::SetHiCo => 0x78,
            Command::SetLoCo => 0x79,
            Command::SetLeadingZeros => 0x7a,
            Command::SetReadModeOnFormatISO => 0x72,
            Command::SetISOReadModeOn => 0x72,
            Command::SetReadModeOff => 0x61,
            Command::TurnLedAllOn => 0x82,
            Command::TurnLedRedOn => 0x85,
            Command::TurnLedGreenOn => 0x83,
            Command::TurnLedYellowOn => 0x84,
            Command::TurnLedAllOff => 0x81,
        }
    }

    /// The two bytes that name the command on the wire.
    pub open spec fn opcode(self) -> Seq<u8> {
        seq![0x1bu8, self.code()]
    }

    /// The two bytes of the command.
    pub fn packets(&self) -> (out: Vec<u8>)
        ensures
            out@ == self.opcode(),
    {
        let out: Vec<u8> = match self {
            Command::Reset => vec![0x1b, 0x61],
            Command::GetFirmwareVersion => vec![0x1b, 0x76],
            Command::GetDeviceModel => vec![0x1b, 0x74],
            Command::SetBCP => vec![0x1b, 0x6f],
            Command::SetBPI => vec![0x1b, 0x62],
            Command::SetHiCo => vec![0x1b, 0x78],
            Command::SetLoCo => vec![0x1b, 0x79],
            Command::SetLeadingZeros => vec![0x1b, 0x7a],
            Command::SetReadModeOnFormatISO => vec![0x1b, 0x72],
            Command::SetISOReadModeOn => vec![0x1b, 0x72],
            Command::SetReadModeOff => vec![0x1b, 0x61],
            Command::TurnLedAllOn => vec![0x1b, 0x82],
            Command::TurnLedRedOn => vec![0x1b, 0x85],
            Command::TurnLedGreenOn => vec![0x1b, 0x83],
            Command::TurnLedYellowOn => vec![0x1b, 0x84],
            Command::TurnLedAllOff => vec![0x1b, 0x81],
        };
        assert(out@ =~= self.opcode());
        out
    }

    /// The command followed by what it is sent with.
    pub fn with_payload(&self, payload: &Vec<u8>) -> (out: Vec<u8>)
        ensures
            out@ == self.opcode() + payload@,
    {
        let mut packets = self.packets();
        let mut i: usize = 0;
        while i < payload.len()
            invariant
                i <= payload.len(),
                packets@ == self.opcode() + payload@.take(i as int),
            decreases payload.len() - i,
        {
            packets.push(payload[i]);
            assert(packets@ =~= self.opcode() + payload@.take(i as int + 1));
            i += 1;
        }
        assert(payload@.take(payload.len() as int) =~= payload@);
        packets
    }
}

} // verus!
