//! The block record the engine consumes, and the decoding of its opaque
//! metadata field.

use vstd::prelude::*;

verus! {

/// One block as delivered by the block source: the fields the measurement
/// engine reads, as plain values. The surrounding application converts the
/// network representation into this record.
#[derive(Debug)]
pub struct BlockRecord {
    /// The block's height; used to detect stale and duplicate arrivals.
    pub sequence_number: u64,
    /// Total gas consumed in the block.
    pub gas_used: u64,
    /// Number of transactions in the block.
    pub transaction_count: u64,
    /// Opaque metadata buffer; its leading byte encodes the number of
    /// sub-block fragments produced for this block.
    pub extra_data: Vec<u8>,
}

/// Decoding the sub-block fragment count can fail in exactly one way:
/// the metadata buffer carries no byte to read.
#[derive(Clone, Copy, Debug, PartialEq, Eq, Structural)]
pub enum DecodeError {
    EmptyFragmentBuffer,
}

impl BlockRecord {
    /// The sub-block fragment count: the leading byte of the metadata
    /// buffer. An empty buffer has no count to give, which is fatal for the
    /// session, so it is reported as an error rather than defaulted.
    pub fn sub_block_fragment_count(&self) -> (r: Result<u8, DecodeError>)
        ensures
            self.extra_data@.len() == 0 ==> r == Result::<u8, DecodeError>::Err(
                DecodeError::EmptyFragmentBuffer,
            ),
            self.extra_data@.len() > 0 ==> r == Result::<u8, DecodeError>::Ok(
                self.extra_data@[0],
            ),
    {
        if self.extra_data.len() == 0 {
            Err(DecodeError::EmptyFragmentBuffer)
        } else {
            Ok(self.extra_data[0])
        }
    }
}

} // verus!
