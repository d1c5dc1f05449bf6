use vstd::prelude::*;

verus! {

/// How one track is recorded: bits per character, bits per inch, and the
/// byte that selects each of the two densities on the device.
#[derive(Debug)]
pub struct TrackConfig {
    pub bpc: u8,
    pub bpi: u8,
    pub bpi75: u8,
    pub bpi210: u8,
}

impl TrackConfig {
    /// The density is one of the two that the device offers.
    pub open spec fn wf(&self) -> bool {
        self.bpi == 75 || self.bpi == 210
    }

    /// The byte that selects this track's density.
    pub open spec fn bpi_code(&self) -> u8 {
        if self.bpi == 75 {
            self.bpi75
        } else {
            self.bpi210
        }
    }

    /// The byte that is sent to select this track's density.
    pub fn bpi_packets(&self) -> (out: Vec<u8>)
        requires
            self.wf(),
        ensures
            out@ == seq![self.bpi_code()],
    {
        let out: Vec<u8> = if self.bpi == 75 {
            vec![self.bpi75]
        } else {
            vec![self.bpi210]
        };
        assert(out@ =~= seq![self.bpi_code()]);
        out
    }
}

/// The fixed parameters of a device.
#[derive(Debug)]
pub struct DeviceConfig {
    pub track1: TrackConfig,
    pub track2: TrackConfig,
    pub track3: TrackConfig,
    pub leading_zero210: u8,
    pub leading_zero75: u8,
    pub is_hi_co: bool,
    pub product_id: u16,
    pub vendor_id: u16,
    pub control_endpoint: u8,
    pub interrupt_endpoint: u8,
}

impl DeviceConfig {
    /// Every track has one of the two densities.
    pub open spec fn wf(&self) -> bool {
        self.track1.wf() && self.track2.wf() && self.track3.wf()
    }

    /// The profile of the MSRX6.
    pub open spec fn msrx6_profile(&self) -> bool {
        &&& self.track1.bpc == 7 && self.track1.bpi == 210 && self.track1.bpi75 == 0xa0
            && self.track1.bpi210 == 0xa1
        &&& self.track2.bpc == 5 && self.track2.bpi == 75 && self.track2.bpi75 == 0xc0
            && self.track2.bpi210 == 0xc1
        &&& self.track3.bpc == 5 && self.track3.bpi == 210 && self.track3.bpi75 == 0x4b
            && self.track3.bpi210 == 0xd2
        &&& self.leading_zero210 == 61
        &&& self.leading_zero75 == 22
        &&& self.is_hi_co
        &&& self.product_id == 0x0003
        &&& self.vendor_id == 0x0801
        &&& self.control_endpoint == 0
        &&& self.interrupt_endpoint == 0x81
    }

    /// The configuration of the MSRX6.
    pub fn msrx6() -> (config: DeviceConfig)
        ensures
            config.msrx6_profile(),
            config.wf(),
    {
        DeviceConfig {
            track1: TrackConfig { bpc: 7, bpi: 210, bpi75: 0xa0, bpi210: 0xa1 },
            track2: TrackConfig { bpc: 5, bpi: 75, bpi75: 0xc0, bpi210: 0xc1 },
            track3: TrackConfig { bpc: 5, bpi: 210, bpi75: 0x4b, bpi210: 0xd2 },
            leading_zero210: 61,
            leading_zero75: 22,
            is_hi_co: true,
            product_id: 0x0003,
            vendor_id: 0x0801,
            control_endpoint: 0,
            interrupt_endpoint: 0x81,
        }
    }

    /// Bits per character of the three tracks, in order.
    pub fn bpc_packets(&self) -> (out: Vec<u8>)
        ensures
            out@ == seq![self.track1.bpc, self.track2.bpc, self.track3.bpc],
    {
        let out: Vec<u8> = vec![self.track1.bpc, self.track2.bpc, self.track3.bpc];
        assert(out@ =~= seq![self.track1.bpc, self.track2.bpc, self.track3.bpc]);
        out
    }

    /// Leading zeros for 210 bits per inch, then for 75.
    pub fn leading_zero_packets(&self) -> (out: Vec<u8>)
        ensures
            out@ == seq![self.leading_zero210, self.leading_zero75],
    {
        let out: Vec<u8> = vec![self.leading_zero210, self.leading_zero75];
        assert(out@ =~= seq![self.leading_zero210, self.leading_zero75]);
        out
    }
}

} // verus!
