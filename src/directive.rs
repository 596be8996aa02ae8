use vstd::prelude::*;

verus! {

/// Wire code of the `NONE` directive: nothing is transferred.
pub const FLAG_NONE: u32 = 0;

/// Wire code of the `COPY` directive: the bytes are copied into module memory.
pub const FLAG_COPY: u32 = 1;

/// Wire code of the `REFERENCE` directive: the bytes stay in host memory.
pub const FLAG_REFERENCE: u32 = 2;

/// How one named buffer is materialised for the current call.
#[derive(Clone, Copy, Debug, PartialEq, Eq, Structural)]
pub enum BufferDirective {
    NoTransfer,
    Copy,
    Reference,
}

impl BufferDirective {
    /// The integer code the native layer expects for this directive.
    pub open spec fn flag_spec(self) -> u32 {
        match self {
            BufferDirective::NoTransfer => FLAG_NONE,
            BufferDirective::Copy => FLAG_COPY,
            BufferDirective::Reference => FLAG_REFERENCE,
        }
    }

    pub fn flag(&self) -> (r: u32)
        ensures
            r == self.flag_spec(),
    {
        match self {
            BufferDirective::NoTransfer => FLAG_NONE,
            BufferDirective::Copy => FLAG_COPY,
            BufferDirective::Reference => FLAG_REFERENCE,
        }
    }

    /// Decodes a wire code; unknown codes give `None`.
    pub fn from_flag(flag: u32) -> (r: Option<BufferDirective>)
        ensures
            match r {
                Some(d) => d.flag_spec() == flag,
                None => flag != FLAG_NONE && flag != FLAG_COPY && flag != FLAG_REFERENCE,
            },
    {
        if flag == FLAG_NONE {
            Some(BufferDirective::NoTransfer)
        } else if flag == FLAG_COPY {
            Some(BufferDirective::Copy)
        } else if flag == FLAG_REFERENCE {
            Some(BufferDirective::Reference)
        } else {
            None
        }
    }
}

} // verus!
