use vstd::prelude::*;

verus! {

/// Where a seek position counts from.
#[derive(Clone, Copy, Debug, PartialEq, Eq, Structural)]
pub enum SeekMode {
    Start,
    RelativeCurrent,
    End,
}

#[derive(Clone, Copy, Debug, PartialEq, Eq, Structural)]
pub enum StreamDir {
    In,
    Out,
}

#[verifier::external_type_specification]
#[verifier::external_body]
pub struct ExIoError(std::io::Error);

/// A host stream that can be positioned.
pub trait VstStream {
    fn seek(&self, pos: i64, mode: SeekMode) -> std::io::Result<i64>;

    fn tell(&self) -> std::io::Result<i64>;
}

impl SeekMode {
    /// The host's code for the seek origin.
    pub open spec fn spec_code(self) -> i32 {
        match self {
            SeekMode::Start => 0,
            SeekMode::RelativeCurrent => 1,
            SeekMode::End => 2,
        }
    }

    pub fn code(&self) -> (r: i32)
        ensures
            r == self.spec_code(),
    {
        match self {
            SeekMode::Start => 0,
            SeekMode::RelativeCurrent => 1,
            SeekMode::End => 2,
        }
    }
}

} // verus!
