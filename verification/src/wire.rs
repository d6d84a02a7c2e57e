//! Outbound protocol instructions and the frames they put on the wire.

use vstd::prelude::*;

verus! {

/// An outbound instruction: produced by the caller (or by the inbound
/// pump, for `Pong`), consumed exactly once by the outbound pump.
#[derive(Debug, Clone, PartialEq)]
pub enum Command {
    /// Ask the feed to start streaming a symbol.
    Subscribe(String),
    /// Ask the feed to stop streaming a symbol.
    Unsubscribe(String),
    /// A literal frame the caller wants on the wire.
    RawFrame(String),
    /// The answer to a keepalive probe.
    Pong,
}

/// The mathematical value of a `Command`.
pub enum CommandView {
    Subscribe(Seq<char>),
    Unsubscribe(Seq<char>),
    RawFrame(Seq<char>),
    Pong,
}

impl View for Command {
    type V = CommandView;

    open spec fn view(&self) -> CommandView {
        match self {
            Command::Subscribe(s) => CommandView::Subscribe(s@),
            Command::Unsubscribe(s) => CommandView::Unsubscribe(s@),
            Command::RawFrame(s) => CommandView::RawFrame(s@),
            Command::Pong => CommandView::Pong,
        }
    }
}

/// One frame handed to the transport's write side: either text or the
/// protocol-level pong control frame.
#[derive(Debug, Clone, PartialEq)]
pub enum OutFrame {
    Text(String),
    Pong,
}

/// The mathematical value of an `OutFrame`.
pub enum OutFrameView {
    Text(Seq<char>),
    Pong,
}

impl View for OutFrame {
    type V = OutFrameView;

    open spec fn view(&self) -> OutFrameView {
        match self {
            OutFrame::Text(s) => OutFrameView::Text(s@),
            OutFrame::Pong => OutFrameView::Pong,
        }
    }
}

/// The text of a subscribe frame for a symbol.
pub open spec fn subscribe_chars(symbol: Seq<char>) -> Seq<char> {
    "{\"action\": \"subscribe\", \"symbols\": \""@ + symbol + "\"}"@
}

/// The text of an unsubscribe frame for a symbol.
pub open spec fn unsubscribe_chars(symbol: Seq<char>) -> Seq<char> {
    "{\"action\": \"unsubscribe\", \"symbols\": \""@ + symbol + "\"}"@
}

/// The frame that a command puts on the wire.
pub open spec fn wire_of(c: CommandView) -> OutFrameView {
    match c {
        CommandView::Subscribe(s) => OutFrameView::Text(subscribe_chars(s)),
        CommandView::Unsubscribe(s) => OutFrameView::Text(unsubscribe_chars(s)),
        CommandView::RawFrame(p) => OutFrameView::Text(p),
        CommandView::Pong => OutFrameView::Pong,
    }
}

/// Builds the subscribe frame for a symbol.
pub fn subscribe_frame(symbol: &str) -> (r: String)
    ensures
        r@ == subscribe_chars(symbol@),
{
    let mut out = String::from_str("{\"action\": \"subscribe\", \"symbols\": \"");
    out.append(symbol);
    out.append("\"}");
    proof {
        assert(out@ =~= subscribe_chars(symbol@));
    }
    out
}

/// Builds the unsubscribe frame for a symbol.
pub fn unsubscribe_frame(symbol: &str) -> (r: String)
    ensures
        r@ == unsubscribe_chars(symbol@),
{
    let mut out = String::from_str("{\"action\": \"unsubscribe\", \"symbols\": \"");
    out.append(symbol);
    out.append("\"}");
    proof {
        assert(out@ =~= unsubscribe_chars(symbol@));
    }
    out
}

/// Translates a command into the frame the wire gets.
pub fn encode_command(c: &Command) -> (r: OutFrame)
    ensures
        r@ == wire_of(c@),
{
    match c {
        Command::Subscribe(s) => OutFrame::Text(subscribe_frame(s.as_str())),
        Command::Unsubscribe(s) => OutFrame::Text(unsubscribe_frame(s.as_str())),
        Command::RawFrame(p) => OutFrame::Text(p.clone()),
        Command::Pong => OutFrame::Pong,
    }
}

} // verus!
