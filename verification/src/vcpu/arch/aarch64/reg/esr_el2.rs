use vstd::prelude::*;

verus! {

/// The exception syndrome register of EL2.
pub struct EsrEl2(u64);

impl From<u64> for EsrEl2 {
    fn from(value: u64) -> (r: Self)
        ensures
            r.value() == value,
    {
        EsrEl2(value)
    }
}

impl vstd::std_specs::convert::FromSpecImpl<u64> for EsrEl2 {
    open spec fn obeys_from_spec() -> bool {
        true
    }

    closed spec fn from_spec(v: u64) -> EsrEl2 {
        EsrEl2(v)
    }
}

/// The exception classes that are handled.
#[derive(Debug, Clone, Copy, PartialEq, Eq, Structural)]
pub enum Ec {
    /// Class 0x00: unknown reason.
    Unknown,
    /// Class 0x24: data abort from a lower exception level.
    DA,
}

impl Ec {
    /// The class number of this exception class.
    pub open spec fn repr(&self) -> u8 {
        match self {
            Ec::Unknown => 0x00,
            Ec::DA => 0x24,
        }
    }

    /// The exception class with this number, if it is one that is handled.
    pub fn from_repr(v: u8) -> (r: Option<Ec>)
        ensures
            match r {
                Some(ec) => ec.repr() == v,
                None => v != 0x00 && v != 0x24,
            },
            v == 0x00 <==> r == Some(Ec::Unknown),
            v == 0x24 <==> r == Some(Ec::DA),
    {
        if v == 0x00 {
            Some(Ec::Unknown)
        } else if v == 0x24 {
            Some(Ec::DA)
        } else {
            None
        }
    }
}

/// An exception class that is not handled, with its number.
#[derive(Debug, Clone, Copy, PartialEq, Eq, Structural)]
pub struct UnknownEc(pub u8);

impl EsrEl2 {
    /// The raw register value.
    pub closed spec fn value(&self) -> u64 {
        self.0
    }

    /// The instruction specific syndrome, bits 0..25.
    pub fn iss(&self) -> (r: u64)
        ensures
            r == self.value() & 0x1ffffff,
    {
        self.0 & 0x1ffffff
    }

    /// The instruction length bit, bit 25: set for a 32-bit instruction.
    pub fn il(&self) -> (r: bool)
        ensures
            r == ((self.value() >> 25u64) & 0x1 != 0),
    {
        (self.0 >> 25) & 0x1 != 0
    }

    /// The exception class, bits 26..32.
    pub fn ec_raw(&self) -> (r: u8)
        ensures
            r == (self.value() >> 26u64) & 0x3f,
    {
        let v = self.0;
        assert((v >> 26u64) & 0x3f <= 0x3f) by (bit_vector);
        ((v >> 26) & 0x3f) as u8
    }

    /// The exception class, if it is one that is handled.
    pub fn ec(&self) -> (r: Result<Ec, UnknownEc>)
        ensures
            match r {
                Ok(ec) => ec.repr() == (self.value() >> 26u64) & 0x3f,
                Err(UnknownEc(raw)) => raw == (self.value() >> 26u64) & 0x3f && raw != 0x00 && raw
                    != 0x24,
            },
    {
        let raw = self.ec_raw();
        match Ec::from_repr(raw) {
            Some(ec) => Ok(ec),
            None => Err(UnknownEc(raw)),
        }
    }

    /// The second instruction specific syndrome, bits 32..56.
    pub fn iss2(&self) -> (r: u64)
        ensures
            r == (self.value() >> 32u64) & 0xffffff,
    {
        (self.0 >> 32) & 0xffffff
    }
}

/// The fields of the syndrome make up its low 56 bits, each in its own place.
pub proof fn lemma_fields_compose(v: u64)
    ensures
        v & 0xff_ffff_ffff_ffff == (v & 0x1ffffff) | (((v >> 25u64) & 0x1) << 25u64) | (((v
            >> 26u64) & 0x3f) << 26u64) | (((v >> 32u64) & 0xffffff) << 32u64),
        v & 0x1ffffff < 0x2000000,
        (v >> 32u64) & 0xffffff < 0x1000000,
{
    assert(v & 0xff_ffff_ffff_ffff == (v & 0x1ffffff) | (((v >> 25u64) & 0x1) << 25u64) | (((v
        >> 26u64) & 0x3f) << 26u64) | (((v >> 32u64) & 0xffffff) << 32u64)) by (bit_vector);
    assert(v & 0x1ffffff < 0x2000000) by (bit_vector);
    assert((v >> 32u64) & 0xffffff < 0x1000000) by (bit_vector);
}

} // verus!
