use vstd::prelude::*;
use crate::error::BridgeError;
use crate::locked_event::{locked_decoding, EthLockedEvent, EthLockedEventView};
use crate::wire::byte_views;

verus! {

/// What a relayer submits to show that a log entry was recorded on the
/// source chain: the log entry and the receipt that holds it, both in their
/// wire form and each with its position, the block header, and the chain of
/// nodes that ties the receipt to the header. This crate reads none of it
/// but the log entry; the rest is for the prover.
#[derive(Debug, PartialEq, Eq)]
pub struct Proof {
    pub log_index: u64,
    pub log_entry_data: Vec<u8>,
    pub receipt_index: u64,
    pub receipt_data: Vec<u8>,
    pub header_data: Vec<u8>,
    pub proof: Vec<Vec<u8>>,
}

/// A proof as mathematical values.
pub struct ProofView {
    pub log_index: u64,
    pub log_entry_data: Seq<u8>,
    pub receipt_index: u64,
    pub receipt_data: Seq<u8>,
    pub header_data: Seq<u8>,
    pub proof: Seq<Seq<u8>>,
}

impl View for Proof {
    type V = ProofView;

    open spec fn view(&self) -> ProofView {
        ProofView {
            log_index: self.log_index,
            log_entry_data: self.log_entry_data@,
            receipt_index: self.receipt_index,
            receipt_data: self.receipt_data@,
            header_data: self.header_data@,
            proof: byte_views(self.proof@),
        }
    }
}

impl Default for Proof {
    fn default() -> (empty: Proof)
        ensures
            empty@ == (ProofView {
                log_index: 0,
                log_entry_data: Seq::empty(),
                receipt_index: 0,
                receipt_data: Seq::empty(),
                header_data: Seq::empty(),
                proof: Seq::empty(),
            }),
    {
        let empty = Proof {
            log_index: 0,
            log_entry_data: Vec::new(),
            receipt_index: 0,
            receipt_data: Vec::new(),
            header_data: Vec::new(),
            proof: Vec::new(),
        };
        assert(byte_views(empty.proof@) =~= Seq::<Seq<u8>>::empty());
        empty
    }
}

impl Clone for Proof {
    fn clone(&self) -> (copy: Proof)
        ensures
            copy@ == self@,
    {
        let mut nodes: Vec<Vec<u8>> = Vec::new();
        let mut i: usize = 0;
        while i < self.proof.len()
            invariant
                i <= self.proof.len(),
                nodes@.len() == i,
                forall|j: int| 0 <= j < i ==> (#[trigger] nodes@[j])@ == self.proof@[j]@,
            decreases self.proof.len() - i,
        {
            nodes.push(self.proof[i].clone());
            i += 1;
        }
        assert(byte_views(nodes@) =~= byte_views(self.proof@));
        Proof {
            log_index: self.log_index,
            log_entry_data: self.log_entry_data.clone(),
            receipt_index: self.receipt_index,
            receipt_data: self.receipt_data.clone(),
            header_data: self.header_data.clone(),
            proof: nodes,
        }
    }
}

/// The arguments of the prover's `verify_log_entry`: the fields of a proof,
/// and the caller's wish that the prover skip its call to the bridge.
#[derive(Debug, PartialEq, Eq)]
pub struct VerifyLogEntry {
    pub log_index: u64,
    pub log_entry_data: Vec<u8>,
    pub receipt_index: u64,
    pub receipt_data: Vec<u8>,
    pub header_data: Vec<u8>,
    pub proof: Vec<Vec<u8>>,
    pub skip_bridge_call: bool,
}

/// How the call to the prover ended.
#[derive(Clone, Copy, Debug, PartialEq, Eq, Structural)]
pub enum ProverReply {
    /// The prover attests that the log entry was recorded.
    Attested,
    /// The prover denies it.
    Denied,
    /// The call did not resolve.
    Unresolved,
}

/// A log entry whose proof is with the prover. It gives the log entry out
/// only against the prover's attestation, so nothing can be decoded, let
/// alone acted on, before the proof is verified.
pub struct PendingLogEntry {
    log_entry_data: Vec<u8>,
}

impl PendingLogEntry {
    /// The wire form of the log entry that is held back.
    pub closed spec fn log_entry_data(&self) -> Seq<u8> {
        self.log_entry_data@
    }

    /// Hands out the log entry if the prover attested the proof; any other
    /// reply is a failed verification. The entry is given up either way:
    /// a proof is resolved once.
    pub fn resolve(self, reply: ProverReply) -> (released: Result<Vec<u8>, BridgeError>)
        ensures
            reply == ProverReply::Attested ==> released is Ok && released->Ok_0@
                == self.log_entry_data(),
            reply != ProverReply::Attested ==> released == Err::<Vec<u8>, BridgeError>(
                BridgeError::VerificationFailed,
            ),
    {
        match reply {
            ProverReply::Attested => Ok(self.log_entry_data),
            _ => Err(BridgeError::VerificationFailed),
        }
    }

    /// Decodes the log entry as a `Locked` event once the prover has
    /// replied. Without an attestation the result is a failed verification
    /// and the log entry is not looked at.
    pub fn locked_event(self, reply: ProverReply) -> (event: Result<EthLockedEvent, BridgeError>)
        ensures
            reply != ProverReply::Attested ==> event == Err::<EthLockedEvent, BridgeError>(
                BridgeError::VerificationFailed,
            ),
            reply == ProverReply::Attested ==> match event {
                Ok(e) => locked_decoding(self.log_entry_data()) == Ok::<
                    EthLockedEventView,
                    BridgeError,
                >(e@),
                Err(error) => locked_decoding(self.log_entry_data()) == Err::<
                    EthLockedEventView,
                    BridgeError,
                >(error),
            },
    {
        match self.resolve(reply) {
            Ok(data) => EthLockedEvent::from_log_entry_data(data.as_slice()),
            Err(error) => Err(error),
        }
    }
}

impl Proof {
    /// Turns a proof into the request for the prover and the log entry that
    /// waits for its reply. Every field of the proof goes into the request
    /// as it is, and so does `skip_bridge_call`.
    pub fn request_verification(self, skip_bridge_call: bool) -> (sent: (
        VerifyLogEntry,
        PendingLogEntry,
    ))
        ensures
            sent.0.log_index == self.log_index,
            sent.0.log_entry_data@ == self.log_entry_data@,
            sent.0.receipt_index == self.receipt_index,
            sent.0.receipt_data@ == self.receipt_data@,
            sent.0.header_data@ == self.header_data@,
            byte_views(sent.0.proof@) == byte_views(self.proof@),
            sent.0.skip_bridge_call == skip_bridge_call,
            sent.1.log_entry_data() == self.log_entry_data@,
    {
        let held = self.log_entry_data.clone();
        (
            VerifyLogEntry {
                log_index: self.log_index,
                log_entry_data: self.log_entry_data,
                receipt_index: self.receipt_index,
                receipt_data: self.receipt_data,
                header_data: self.header_data,
                proof: self.proof,
                skip_bridge_call,
            },
            PendingLogEntry { log_entry_data: held },
        )
    }
}

} // verus!
