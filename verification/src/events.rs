//! The synchronization coordinator's decision logic: the event and message
//! shapes, the fixed-priority classification of inbound gossip payloads, the
//! command parser, and the step functions that take the current chain state
//! and one event to the next state and the outbound action.
//!
//! The event loop itself — transport, discovery, pub/sub delivery, the
//! terminal — lives outside the library and hands these functions plain
//! values.

use vstd::prelude::*;

use crate::block::Block;
use crate::chain::App;
use crate::chain::BlockFault;
use crate::chain::ForkError;
use crate::chain::block_fault;
use crate::chain::clone_chain;
use crate::chain::fork_choice;
use crate::strutil::seq_starts_with;
use crate::strutil::str_eq;
use crate::strutil::str_starts_with;

verus! {

/// A full chain snapshot addressed to the peer that asked for it.
pub struct ChainResponse {
    pub blockchain: Vec<Block>,
    pub receiver: String,
}

/// A request for the local chain of the peer named `from_peer_id`.
pub struct LocalChainRequest {
    pub from_peer_id: String,
}

/// What the coordinator selects among on each iteration: a queued chain
/// response ready to be emitted, a line of user input, or the one-shot
/// startup signal.
pub enum EventType {
    LocalChainResponse(ChainResponse),
    Input(String),
    Init,
}

/// An inbound gossip payload, already decoded into one of the three shapes.
pub enum IncomingMessage {
    Response(ChainResponse),
    Request(LocalChainRequest),
    NewBlock(Block),
}

/// An interactive command line, parsed.
pub enum Command {
    ListPeers,
    ListChain,
    CreateBlock(String),
    Unknown,
}

/// The fixed decode priority for inbound gossip payloads: a payload that
/// decodes as more than one shape is resolved as a response first, then a
/// request, then a block; one that decodes as none is silently ignored. The
/// three arguments are the three decode attempts on one payload.
pub fn classify_incoming(
    response: Option<ChainResponse>,
    request: Option<LocalChainRequest>,
    block: Option<Block>,
) -> (m: Option<IncomingMessage>)
    ensures
        response matches Some(r) ==> m == Some(IncomingMessage::Response(r)),
        response is None ==> (request matches Some(q) ==> m == Some(IncomingMessage::Request(q))),
        response is None && request is None ==> (block matches Some(b) ==> m == Some(
            IncomingMessage::NewBlock(b),
        )),
        response is None && request is None && block is None ==> m is None,
{
    match response {
        Some(r) => Some(IncomingMessage::Response(r)),
        None => match request {
            Some(q) => Some(IncomingMessage::Request(q)),
            None => match block {
                Some(b) => Some(IncomingMessage::NewBlock(b)),
                None => None,
            },
        },
    }
}

/// A remote chain snapshot arrived. If it is addressed to this node, the
/// fork-choice selector runs against the live chain and the winner is
/// committed; on the both-invalid error the live chain is left untouched.
/// Snapshots addressed to other nodes change nothing.
pub fn handle_chain_response(app: &mut App, resp: ChainResponse, my_peer_id: &str) -> (r: Result<
    (),
    ForkError,
>)
    ensures
        resp.receiver@ != my_peer_id@ ==> final(app).blockchain@ == old(app).blockchain@ && r is Ok,
        resp.receiver@ == my_peer_id@ ==> match fork_choice(
            old(app).blockchain@,
            resp.blockchain@,
        ) {
            Some(c) => final(app).blockchain@ == c && r is Ok,
            None => final(app).blockchain@ == old(app).blockchain@ && r
                == Err::<(), ForkError>(ForkError::BothInvalid),
        },
{
    if !str_eq(resp.receiver.as_str(), my_peer_id) {
        return Ok(());
    }
    let local = clone_chain(&app.blockchain);
    match app.choose_chain(local, resp.blockchain) {
        Ok(winner) => {
            app.blockchain = winner;
            Ok(())
        },
        Err(e) => Err(e),
    }
}

/// A chain request arrived. If it names this node, a full snapshot of the
/// live chain is queued for the requesting peer; otherwise nothing happens.
pub fn handle_chain_request(
    app: &App,
    req: &LocalChainRequest,
    my_peer_id: &str,
    source: &str,
) -> (r: Option<ChainResponse>)
    ensures
        req.from_peer_id@ == my_peer_id@ ==> (r matches Some(resp) && resp.blockchain@
            == app.blockchain@ && resp.receiver@ == source@),
        req.from_peer_id@ != my_peer_id@ ==> r is None,
{
    if str_eq(req.from_peer_id.as_str(), my_peer_id) {
        Some(
            ChainResponse { blockchain: clone_chain(&app.blockchain), receiver: source.to_owned() },
        )
    } else {
        None
    }
}

/// A freshly gossiped block arrived: it is validated against the current
/// last block, appended when valid and dropped with the failed rule
/// otherwise.
pub fn handle_new_block(app: &mut App, block: Block) -> (r: Result<(), BlockFault>)
    requires
        old(app).blockchain@.len() > 0,
    ensures
        r == (match block_fault(block, old(app).blockchain@.last()) {
            None => Ok::<(), BlockFault>(()),
            Some(f) => Err::<(), BlockFault>(f),
        }),
        r is Ok ==> final(app).blockchain@ == old(app).blockchain@.push(block),
        r is Err ==> final(app).blockchain@ == old(app).blockchain@,
{
    app.try_add_block(block)
}

/// What one classified gossip payload came to: the next chain state is left
/// in the `App`, and the outcome names the action the event loop must still
/// perform, if any.
pub enum GossipOutcome {
    /// A snapshot addressed to this node won or lost the fork choice; the
    /// live chain now holds the winner.
    ChainSynced,
    /// The fork choice found both chains invalid; the local chain is kept.
    SyncFailed(ForkError),
    /// A snapshot of the live chain must be emitted on the gossip channel.
    QueueResponse(ChainResponse),
    /// A gossiped block passed validation and was appended.
    BlockAppended,
    /// A gossiped block failed the named validity rule and was dropped.
    BlockRejected(BlockFault),
    /// The payload asked nothing of this node.
    Ignored,
}

/// One coordinator step for an inbound gossip payload: takes the live state
/// and one decoded message, commits the next state, and returns the action
/// left for the event loop. A block arriving before the chain has its
/// genesis block is ignored.
pub fn handle_incoming_message(
    app: &mut App,
    msg: IncomingMessage,
    my_peer_id: &str,
    source: &str,
) -> (r: GossipOutcome)
    ensures
        msg matches IncomingMessage::Response(resp) ==> (if resp.receiver@ != my_peer_id@ {
            final(app).blockchain@ == old(app).blockchain@ && r == GossipOutcome::Ignored
        } else {
            match fork_choice(old(app).blockchain@, resp.blockchain@) {
                Some(c) => final(app).blockchain@ == c && r == GossipOutcome::ChainSynced,
                None => final(app).blockchain@ == old(app).blockchain@ && r
                    == GossipOutcome::SyncFailed(ForkError::BothInvalid),
            }
        }),
        msg matches IncomingMessage::Request(req) ==> final(app).blockchain@ == old(
            app,
        ).blockchain@ && (if req.from_peer_id@ == my_peer_id@ {
            r matches GossipOutcome::QueueResponse(resp) && resp.blockchain@ == old(
                app,
            ).blockchain@ && resp.receiver@ == source@
        } else {
            r == GossipOutcome::Ignored
        }),
        msg matches IncomingMessage::NewBlock(b) ==> (if old(app).blockchain@.len() == 0 {
            final(app).blockchain@ == old(app).blockchain@ && r == GossipOutcome::Ignored
        } else {
            match block_fault(b, old(app).blockchain@.last()) {
                None => final(app).blockchain@ == old(app).blockchain@.push(b) && r
                    == GossipOutcome::BlockAppended,
                Some(f) => final(app).blockchain@ == old(app).blockchain@ && r
                    == GossipOutcome::BlockRejected(f),
            }
        }),
{
    match msg {
        IncomingMessage::Response(resp) => {
            if !str_eq(resp.receiver.as_str(), my_peer_id) {
                GossipOutcome::Ignored
            } else {
                match handle_chain_response(app, resp, my_peer_id) {
                    Ok(()) => GossipOutcome::ChainSynced,
                    Err(e) => GossipOutcome::SyncFailed(e),
                }
            }
        },
        IncomingMessage::Request(req) => match handle_chain_request(
            app,
            &req,
            my_peer_id,
            source,
        ) {
            Some(resp) => GossipOutcome::QueueResponse(resp),
            None => GossipOutcome::Ignored,
        },
        IncomingMessage::NewBlock(b) => {
            if app.blockchain.len() == 0 {
                GossipOutcome::Ignored
            } else {
                match handle_new_block(app, b) {
                    Ok(()) => GossipOutcome::BlockAppended,
                    Err(f) => GossipOutcome::BlockRejected(f),
                }
            }
        },
    }
}

/// The startup signal's outbound half: with no peer reachable no request is
/// sent; otherwise one arbitrary peer — the one discovery reported last — is
/// asked for its chain. No quorum, no retry.
pub fn make_init_request(peers: &Vec<String>) -> (r: Option<LocalChainRequest>)
    ensures
        peers@.len() == 0 ==> r is None,
        peers@.len() > 0 ==> (r matches Some(q) && q.from_peer_id@ == peers@.last()@),
{
    if peers.len() == 0 {
        None
    } else {
        Some(LocalChainRequest { from_peer_id: peers[peers.len() - 1].clone() })
    }
}

/// Parses one interactive line: exactly "ls peers"; a line starting with
/// "ls chain"; "create block " followed by the payload; anything else is
/// unknown and changes nothing.
pub fn parse_command(line: &str) -> (c: Command)
    ensures
        line@ == "ls peers"@ ==> c == Command::ListPeers,
        line@ != "ls peers"@ && seq_starts_with(line@, "ls chain"@) ==> c == Command::ListChain,
        line@ != "ls peers"@ && !seq_starts_with(line@, "ls chain"@) && seq_starts_with(
            line@,
            "create block "@,
        ) ==> (c matches Command::CreateBlock(data) && data@ == line@.skip(13)),
        line@ != "ls peers"@ && !seq_starts_with(line@, "ls chain"@) && !seq_starts_with(
            line@,
            "create block "@,
        ) ==> c == Command::Unknown,
{
    if str_eq(line, "ls peers") {
        Command::ListPeers
    } else if str_starts_with(line, "ls chain") {
        Command::ListChain
    } else if str_starts_with(line, "create block ") {
        proof {
            reveal_strlit("create block ");
        }
        let n = line.unicode_len();
        let data = line.substring_char(13, n).to_owned();
        assert(data@ =~= line@.skip(13));
        Command::CreateBlock(data)
    } else {
        Command::Unknown
    }
}

} // verus!
