use vstd::prelude::*;

use crate::scheduler::Input;

verus! {

/// A transaction as a block reports it.
#[derive(Clone, Debug)]
pub struct TransactionRecord {
    /// Id of the inbound message that caused the transaction.
    pub in_msg_id: String,
    pub total_fees: u64,
    pub exit_code: i32,
    /// Encoded outbound messages, in order.
    pub out_messages: Vec<String>,
}

/// A block of the destination account's chain.
#[derive(Clone, Debug)]
pub struct Block {
    pub id: String,
    pub gen_time: u64,
    pub transactions: Vec<TransactionRecord>,
}

/// The inbound message ids of a block's transactions, in order.
pub open spec fn in_msg_ids(block: Block) -> Seq<Seq<char>> {
    block.transactions@.map_values(|t: TransactionRecord| t.in_msg_id@)
}

/// `r` is where the message's transaction stands in `ids`: the first
/// position that holds `id`, or `None` where no position does.
pub open spec fn is_resolution(ids: Seq<Seq<char>>, id: Seq<char>, r: Option<usize>) -> bool {
    match r {
        Some(k) => k < ids.len() && ids[k as int] == id && forall|j: int| 0 <= j < k ==> ids[j] != id,
        None => forall|j: int| 0 <= j < ids.len() ==> ids[j] != id,
    }
}

/// Looks up the transaction caused by the message `message_id` in `block`.
pub fn find_transaction(block: &Block, message_id: &String) -> (r: Option<usize>)
    ensures
        is_resolution(in_msg_ids(*block), message_id@, r),
{
    let ghost ids = in_msg_ids(*block);
    let mut i: usize = 0;
    while i < block.transactions.len()
        invariant
            i <= block.transactions@.len(),
            ids == in_msg_ids(*block),
            forall|j: int| 0 <= j < i ==> ids[j] != message_id@,
        decreases block.transactions@.len() - i,
    {
        if block.transactions[i].in_msg_id == *message_id {
            return Some(i);
        }
        i = i + 1;
    }
    None
}

/// Resolving the same message in the same block always gives the same
/// transaction: there is one resolution of an id among a block's ids.
pub proof fn lemma_resolution_is_unique(ids: Seq<Seq<char>>, id: Seq<char>, r1: Option<usize>, r2: Option<usize>)
    requires
        is_resolution(ids, id, r1),
        is_resolution(ids, id, r2),
    ensures
        r1 == r2,
{
    match (r1, r2) {
        (Some(a), Some(b)) => {
            if a < b {
                assert(ids[a as int] == id);
            } else if b < a {
                assert(ids[b as int] == id);
            }
        },
        (Some(a), None) => {
            assert(ids[a as int] == id);
        },
        (None, Some(b)) => {
            assert(ids[b as int] == id);
        },
        (None, None) => {},
    }
}

/// The report handed to the delivery after a new block is seen: its time,
/// and the exit code of the message's transaction where the block holds it.
pub fn block_input(block: &Block, message_id: &String) -> (r: Input)
    ensures
        ({
            let ids = in_msg_ids(*block);
            exists|k: Option<usize>|
                #[trigger] is_resolution(ids, message_id@, k) && r == (Input::BlockFetched {
                    block_time: block.gen_time,
                    exit_code: match k {
                        Some(k) => Some(block.transactions@[k as int].exit_code),
                        None => None,
                    },
                })
        }),
{
    let k = find_transaction(block, message_id);
    match k {
        Some(i) => Input::BlockFetched { block_time: block.gen_time, exit_code: Some(block.transactions[i].exit_code) },
        None => Input::BlockFetched { block_time: block.gen_time, exit_code: None },
    }
}

/// The kind of a decoded message body.
#[derive(Clone, Copy, Debug, PartialEq, Eq, Structural)]
pub enum MessageBodyType {
    Input,
    Output,
    InternalOutput,
    Event,
}

/// An outbound message decoded with the contract's ABI.
#[derive(Clone, Debug)]
pub struct DecodedMessageBody {
    pub body_type: MessageBodyType,
    pub name: String,
    /// The decoded parameters, as JSON text.
    pub value: Option<String>,
}

/// Whether a decoding result is a function's return message.
pub open spec fn is_return(b: Option<DecodedMessageBody>) -> bool {
    match b {
        Some(body) => body.body_type == MessageBodyType::Output,
        None => false,
    }
}

/// Where the primary output of a transaction stands among its decoded
/// outbound messages (`None` where a message could not be decoded): the one
/// function return message, if there is exactly one.
pub fn primary_output_index(bodies: &Vec<Option<DecodedMessageBody>>) -> (r: Option<usize>)
    ensures
        match r {
            Some(k) => k < bodies@.len() && is_return(bodies@[k as int]) && forall|j: int|
                0 <= j < bodies@.len() && j != k ==> !is_return(#[trigger] bodies@[j]),
            None => !exists|k: int|
                0 <= k < bodies@.len() && is_return(bodies@[k]) && forall|j: int|
                    0 <= j < bodies@.len() && j != k ==> !is_return(#[trigger] bodies@[j]),
        },
{
    let mut found: Option<usize> = None;
    let mut i: usize = 0;
    while i < bodies.len()
        invariant
            i <= bodies@.len(),
            match found {
                Some(k) => k < i && is_return(bodies@[k as int]) && forall|j: int|
                    0 <= j < i && j != k ==> !is_return(#[trigger] bodies@[j]),
                None => forall|j: int| 0 <= j < i ==> !is_return(#[trigger] bodies@[j]),
            },
        decreases bodies@.len() - i,
    {
        let ret = match &bodies[i] {
            Some(body) => match body.body_type {
                MessageBodyType::Output => true,
                _ => false,
            },
            None => false,
        };
        if ret {
            match found {
                Some(k) => {
                    proof {
                        assert(is_return(bodies@[k as int]));
                        assert(is_return(bodies@[i as int]));
                    }
                    return None;
                },
                None => {
                    found = Some(i);
                },
            }
        }
        i = i + 1;
    }
    found
}

} // verus!
