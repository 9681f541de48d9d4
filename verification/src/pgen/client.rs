//! What is said to the generator over its socket, and what its answers mean.

use vstd::prelude::*;
use vstd::string::StringSliceAdditionalSpecFns;
use vstd::utf8::{encode_utf8, encode_utf8_valid_utf8, is_char_boundary,
    is_char_boundary_iff_not_is_continuation_byte, pop_first_scalar, valid_utf8};
use crate::bytes::{digits_of, find_byte, offset_of, push_bytes, push_unsigned, same_bytes};
use crate::pgen::commands::{PGenGetConfCommand, PGenSetConfCommand};
use crate::pgen::pattern_config::PGenPatternConfig;
use crate::pgen::ColorFormat;
use crate::utils::{get_rgb_real_range, rgb_range_min, Rgb};

verus! {

/// The two bytes that end every message, in both directions.
pub const PGEN_CMD_END_BYTE_STR: &'static str = "\x02\x0D";

/// Whether the generator is reached, and what went wrong last.
#[derive(Debug, Clone, PartialEq, Eq)]
pub struct ConnectState {
    pub connected: bool,
    pub error: Option<String>,
}

impl Default for ConnectState {
    fn default() -> (r: ConnectState)
        ensures
            !r.connected,
            r.error.is_none(),
    {
        ConnectState { connected: false, error: None }
    }
}

/// A pattern as it is sent to the generator.
#[derive(Debug, Clone, Copy, PartialEq, Eq)]
pub struct PGenTestPattern {
    pub format: ColorFormat,
    pub position: (u16, u16),
    pub patch_size: (u16, u16),
    pub bit_depth: u8,
    pub rgb: Rgb,
    pub bg_rgb: Rgb,
}

/// A background component as the generator takes it: a quarter of it,
/// rounded, where the pattern has ten bits and the output is not RGB.
pub open spec fn sent_background(format: ColorFormat, bit_depth: u8, c: u16) -> int {
    if bit_depth == 10 && format != ColorFormat::Rgb {
        (c + 2) / 4
    } else {
        c as int
    }
}

/// The command that shows a pattern:
/// `RGB=<shape>;<w>,<h>;0;<r>,<g>,<b>;<r>,<g>,<b>;0,0,<x>,<y>;-1`, the first
/// colour that of the patch, the second that of the background.
pub open spec fn test_pattern_command(p: PGenTestPattern) -> Seq<u8> {
    "RGB=".spec_bytes() + (if p.bit_depth == 8 {
        "RECTANGLE".spec_bytes()
    } else {
        "RECTANGLE10bit".spec_bytes()
    }) + ";".spec_bytes() + digits_of(p.patch_size.0 as nat) + ",".spec_bytes() + digits_of(
        p.patch_size.1 as nat,
    ) + ";0;".spec_bytes() + digits_of(p.rgb[0] as nat) + ",".spec_bytes() + digits_of(
        p.rgb[1] as nat,
    ) + ",".spec_bytes() + digits_of(p.rgb[2] as nat) + ";".spec_bytes() + digits_of(
        sent_background(p.format, p.bit_depth, p.bg_rgb[0]) as nat,
    ) + ",".spec_bytes() + digits_of(sent_background(p.format, p.bit_depth, p.bg_rgb[1]) as nat)
        + ",".spec_bytes() + digits_of(sent_background(p.format, p.bit_depth, p.bg_rgb[2]) as nat)
        + ";0,0,".spec_bytes() + digits_of(p.position.0 as nat) + ",".spec_bytes() + digits_of(
        p.position.1 as nat,
    ) + ";-1".spec_bytes()
}

impl PGenTestPattern {
    /// The pattern that a configuration describes.
    pub fn from_config(format: ColorFormat, cfg: &PGenPatternConfig) -> (r: PGenTestPattern)
        ensures
            r.format == format,
            r.position == cfg.position,
            r.patch_size == cfg.patch_size,
            r.bit_depth == cfg.bit_depth.repr(),
            r.rgb == cfg.patch_colour,
            r.bg_rgb == cfg.background_colour,
    {
        PGenTestPattern {
            format,
            position: cfg.position,
            patch_size: cfg.patch_size,
            bit_depth: cfg.bit_depth.value() as u8,
            rgb: cfg.patch_colour,
            bg_rgb: cfg.background_colour,
        }
    }

    /// The pattern of a configuration with patch and background at the
    /// least value of its range: black.
    pub fn blank(format: ColorFormat, cfg: &PGenPatternConfig) -> (r: PGenTestPattern)
        ensures
            r.format == format,
            r.position == cfg.position,
            r.patch_size == cfg.patch_size,
            r.bit_depth == cfg.bit_depth.repr(),
            forall|i: int|
                0 <= i < 3 ==> r.rgb[i] == rgb_range_min(
                    cfg.limited_range,
                    cfg.bit_depth.repr() as u8,
                ),
            r.bg_rgb == r.rgb,
    {
        let depth = cfg.bit_depth.value() as u8;
        let (min, _) = get_rgb_real_range(cfg.limited_range, depth);
        let rgb = [min, min, min];
        PGenTestPattern {
            format,
            position: cfg.position,
            patch_size: cfg.patch_size,
            bit_depth: depth,
            rgb,
            bg_rgb: rgb,
        }
    }

    fn background(&self, i: usize) -> (r: u16)
        requires
            i < 3,
        ensures
            r == sent_background(self.format, self.bit_depth, self.bg_rgb[i as int]),
    {
        let c = self.bg_rgb[i];
        let is_rgb = match self.format {
            ColorFormat::Rgb => true,
            _ => false,
        };
        if self.bit_depth == 10 && !is_rgb {
            ((c as u32 + 2) / 4) as u16
        } else {
            c
        }
    }

    /// The command that shows the pattern.
    pub fn command(&self) -> (r: Vec<u8>)
        ensures
            r@ == test_pattern_command(*self),
    {
        let mut out: Vec<u8> = Vec::new();
        push_bytes(&mut out, "RGB=".as_bytes());
        if self.bit_depth == 8 {
            push_bytes(&mut out, "RECTANGLE".as_bytes());
        } else {
            push_bytes(&mut out, "RECTANGLE10bit".as_bytes());
        }
        push_bytes(&mut out, ";".as_bytes());
        push_unsigned(&mut out, self.patch_size.0 as u64);
        push_bytes(&mut out, ",".as_bytes());
        push_unsigned(&mut out, self.patch_size.1 as u64);
        push_bytes(&mut out, ";0;".as_bytes());
        push_unsigned(&mut out, self.rgb[0] as u64);
        push_bytes(&mut out, ",".as_bytes());
        push_unsigned(&mut out, self.rgb[1] as u64);
        push_bytes(&mut out, ",".as_bytes());
        push_unsigned(&mut out, self.rgb[2] as u64);
        push_bytes(&mut out, ";".as_bytes());
        push_unsigned(&mut out, self.background(0) as u64);
        push_bytes(&mut out, ",".as_bytes());
        push_unsigned(&mut out, self.background(1) as u64);
        push_bytes(&mut out, ",".as_bytes());
        push_unsigned(&mut out, self.background(2) as u64);
        push_bytes(&mut out, ";0,0,".as_bytes());
        push_unsigned(&mut out, self.position.0 as u64);
        push_bytes(&mut out, ",".as_bytes());
        push_unsigned(&mut out, self.position.1 as u64);
        push_bytes(&mut out, ";-1".as_bytes());
        assert(out@ =~= test_pattern_command(*self));
        out
    }
}

/// An address on the network.
#[derive(Debug, Clone, Copy, PartialEq, Eq)]
pub enum IpAddress {
    V4([u8; 4]),
    V6([u16; 8]),
}

/// Where the generator listens.
#[derive(Debug, Clone, Copy, PartialEq, Eq)]
pub struct SocketAddress {
    pub ip: IpAddress,
    pub port: u16,
}

/// A command to the generator or to the connection with it.
#[derive(Debug, Clone, PartialEq, Eq)]
pub enum PGenCommand {
    IsAlive,
    Connect,
    Quit,
    Shutdown,
    Reboot,
    UpdateSocket(SocketAddress),
    RestartSoftware,
    TestPattern(PGenTestPattern),
    MultipleGetConfCommands(Vec<PGenGetConfCommand>),
    MultipleSetConfCommands(Vec<PGenSetConfCommand>),
}

/// The connection with the generator, without the socket itself.
#[derive(Debug, Clone, PartialEq, Eq)]
pub struct PGenClient {
    /// Whether a socket is open.
    pub has_stream: bool,
    pub socket_addr: SocketAddress,
    pub connect_state: ConnectState,
}

/// What is done about a command while no socket is open.
#[derive(Debug, Clone, Copy, PartialEq, Eq, Structural)]
pub enum Offline {
    /// The command is carried out as if a socket were open: it opens one.
    Proceed,
    /// The address is taken over; the answer is that the command went out.
    AddressUpdated,
    /// The answer is that the generator is not connected.
    NotConnected,
}

/// A message as it goes over the socket: the text and the two end bytes.
pub open spec fn framed(cmd: Seq<u8>) -> Seq<u8> {
    cmd + seq![0x02u8, 0x0du8]
}

/// What was received without the two end bytes, if it ends with them.
pub open spec fn payload_of(received: Seq<u8>) -> Seq<u8> {
    if seq![0x02u8, 0x0du8].is_suffix_of(received) {
        received.subrange(0, received.len() - 2)
    } else {
        received
    }
}

/// The command that asks a row of questions at once: `CMD:MULTIPLE:` and
/// the words of the questions with colons between them.
pub open spec fn multiple_get_command(commands: Seq<PGenGetConfCommand>) -> Seq<u8>
    decreases commands.len(),
{
    if commands.len() == 0 {
        "CMD:MULTIPLE:".spec_bytes()
    } else if commands.len() == 1 {
        "CMD:MULTIPLE:".spec_bytes() + commands[0].name_bytes()
    } else {
        multiple_get_command(commands.drop_last()) + ":".spec_bytes() + commands.last().name_bytes()
    }
}

/// The command that changes a setting: `CMD:<word>:<number>`.
pub open spec fn set_conf_command(cmd: PGenSetConfCommand) -> Seq<u8> {
    "CMD:".spec_bytes() + encode_utf8(cmd.name()) + ":".spec_bytes() + digits_of(
        cmd.number() as nat,
    )
}

/// A message as it goes over the socket.
pub fn frame_command(cmd: &[u8]) -> (r: Vec<u8>)
    ensures
        r@ == framed(cmd@),
{
    let mut out: Vec<u8> = Vec::new();
    push_bytes(&mut out, cmd);
    out.push(0x02);
    out.push(0x0d);
    assert(out@ =~= framed(cmd@));
    out
}

/// Whether what was received ends with the two end bytes: the answer is whole.
pub fn is_whole_answer(received: &[u8]) -> (r: bool)
    ensures
        r == seq![0x02u8, 0x0du8].is_suffix_of(received@),
{
    let n = received.len();
    let r = n >= 2 && received[n - 2] == 0x02 && received[n - 1] == 0x0d;
    proof {
        let end = seq![0x02u8, 0x0du8];
        if n >= 2 {
            assert(received@.skip(n - 2).len() == 2);
            if r {
                assert(received@.skip(n - 2) =~= end);
            } else {
                assert(received@.skip(n - 2)[0] == received@[n - 2]);
                assert(received@.skip(n - 2)[1] == received@[n - 1]);
            }
        }
    }
    r
}

/// What was received, without the two end bytes if it ends with them.
pub fn answer_payload(received: &[u8]) -> (r: &[u8])
    ensures
        r@ == payload_of(received@),
{
    if is_whole_answer(received) {
        vstd::slice::slice_subrange(received, 0, received.len() - 2)
    } else {
        received
    }
}

/// The command that asks a row of questions at once.
pub fn encode_multiple_get(commands: &[PGenGetConfCommand]) -> (r: Vec<u8>)
    ensures
        r@ == multiple_get_command(commands@),
{
    let mut out: Vec<u8> = Vec::new();
    push_bytes(&mut out, "CMD:MULTIPLE:".as_bytes());
    let mut i: usize = 0;
    assert(commands@.subrange(0, 0) =~= Seq::<PGenGetConfCommand>::empty());
    while i < commands.len()
        invariant
            i <= commands.len(),
            out@ == multiple_get_command(commands@.subrange(0, i as int)),
        decreases commands.len() - i,
    {
        let ghost before = commands@.subrange(0, i as int);
        let ghost now = commands@.subrange(0, i + 1);
        assert(now.drop_last() =~= before);
        assert(now.last() == commands@[i as int]);
        if i > 0 {
            push_bytes(&mut out, ":".as_bytes());
        }
        push_bytes(&mut out, commands[i].as_ref().as_bytes());
        i += 1;
    }
    assert(commands@.subrange(0, commands@.len() as int) =~= commands@);
    out
}

/// The command that changes a setting.
pub fn encode_set_conf(cmd: PGenSetConfCommand) -> (r: Vec<u8>)
    ensures
        r@ == set_conf_command(cmd),
{
    let mut out: Vec<u8> = Vec::new();
    push_bytes(&mut out, "CMD:".as_bytes());
    push_bytes(&mut out, cmd.as_ref().as_bytes());
    push_bytes(&mut out, ":".as_bytes());
    push_unsigned(&mut out, cmd.value() as u64);
    out
}

/// Whether the generator answered that it is alive.
pub fn is_alive_answer(res: &[u8]) -> (r: bool)
    ensures
        r == (res@ == "ALIVE".spec_bytes()),
{
    same_bytes(res, "ALIVE".as_bytes())
}

/// Whether the generator answered that it did what it was told.
pub fn is_ok_answer(res: &[u8]) -> (r: bool)
    ensures
        r == (res@ == "OK:".spec_bytes()),
{
    same_bytes(res, "OK:".as_bytes())
}

impl PGenClient {
    /// A client for the generator at `socket_addr`, with no socket open.
    pub fn new(socket_addr: SocketAddress) -> (r: PGenClient)
        ensures
            !r.has_stream,
            r.socket_addr == socket_addr,
            !r.connect_state.connected,
            r.connect_state.error.is_none(),
    {
        PGenClient { has_stream: false, socket_addr, connect_state: ConnectState::default() }
    }

    /// Takes a new address over; the generator there is not reached yet.
    pub fn set_socket_address(&mut self, socket_addr: &SocketAddress)
        ensures
            final(self).socket_addr == *socket_addr,
            !final(self).connect_state.connected,
            final(self).connect_state.error == old(self).connect_state.error,
            final(self).has_stream == old(self).has_stream,
    {
        self.connect_state.connected = false;
        self.socket_addr = *socket_addr;
    }

    /// What is done about a command while no socket is open.
    pub fn offline_plan(&self, cmd: &PGenCommand) -> (r: Offline)
        ensures
            r == if self.has_stream || *cmd == PGenCommand::Connect {
                Offline::Proceed
            } else if cmd is UpdateSocket {
                Offline::AddressUpdated
            } else {
                Offline::NotConnected
            },
    {
        if self.has_stream {
            return Offline::Proceed;
        }
        match cmd {
            PGenCommand::Connect => Offline::Proceed,
            PGenCommand::UpdateSocket(_) => Offline::AddressUpdated,
            _ => Offline::NotConnected,
        }
    }

    /// Takes in the outcome of a heartbeat: the generator is reached
    /// exactly if it answered that it is alive.
    pub fn heartbeat_done(&mut self, alive: bool) -> (r: bool)
        ensures
            r == alive,
            final(self).connect_state.connected == alive,
            final(self).connect_state.error == old(self).connect_state.error,
            final(self).has_stream == old(self).has_stream,
            final(self).socket_addr == old(self).socket_addr,
    {
        self.connect_state.connected = alive;
        alive
    }

    /// Before a connection is made: the generator counts as not reached
    /// and the last error is forgotten.
    pub fn connect_begins(&mut self)
        ensures
            !final(self).connect_state.connected,
            final(self).connect_state.error.is_none(),
            final(self).has_stream == old(self).has_stream,
            final(self).socket_addr == old(self).socket_addr,
    {
        self.connect_state.connected = false;
        self.connect_state.error = None;
    }

    /// Takes in how opening the socket went, and the heartbeat after it.
    pub fn connect_done(&mut self, stream_error: Option<String>, alive: bool)
        ensures
            final(self).connect_state.connected == alive,
            final(self).connect_state.error == match stream_error {
                Some(e) => Some(e),
                None => old(self).connect_state.error,
            },
            final(self).has_stream == (old(self).has_stream || stream_error.is_none()),
            final(self).socket_addr == old(self).socket_addr,
    {
        self.connect_state.connected = alive;
        match stream_error {
            Some(e) => {
                self.connect_state.error = Some(e);
            },
            None => {
                self.has_stream = true;
            },
        }
    }

    /// Whether the generator is told before the socket is closed.
    pub fn says_quit(&self) -> (r: bool)
        ensures
            r == self.connect_state.connected,
    {
        self.connect_state.connected
    }

    /// Takes in how the leave-taking went: an answer that is not empty
    /// means that the generator is still there; with an empty one the
    /// socket is given up.
    pub fn disconnect_done(&mut self, outcome: Result<bool, String>)
        ensures
            match outcome {
                Ok(still_connected) => {
                    &&& final(self).connect_state.connected == still_connected
                    &&& final(self).connect_state.error == old(self).connect_state.error
                    &&& final(self).has_stream == (old(self).has_stream && still_connected)
                },
                Err(e) => {
                    &&& final(self).connect_state.connected == old(self).connect_state.connected
                    &&& final(self).connect_state.error == Some(e)
                    &&& final(self).has_stream == old(self).has_stream
                },
            },
            final(self).socket_addr == old(self).socket_addr,
    {
        match outcome {
            Ok(still_connected) => {
                self.connect_state.connected = still_connected;
                if !still_connected {
                    self.has_stream = false;
                }
            },
            Err(e) => {
                self.connect_state.error = Some(e);
            },
        }
    }

    /// Takes in how telling the device to halt or to reboot went: once it
    /// has agreed, it is gone and the socket with it.
    pub fn power_command_done(&mut self, outcome: Result<bool, String>)
        ensures
            match outcome {
                Ok(agreed) => {
                    &&& final(self).connect_state.connected == (old(self).connect_state.connected
                        && !agreed)
                    &&& final(self).connect_state.error == old(self).connect_state.error
                    &&& final(self).has_stream == (old(self).has_stream && !agreed)
                },
                Err(e) => {
                    &&& final(self).connect_state.connected == old(self).connect_state.connected
                    &&& final(self).connect_state.error == Some(e)
                    &&& final(self).has_stream == old(self).has_stream
                },
            },
            final(self).socket_addr == old(self).socket_addr,
    {
        match outcome {
            Ok(agreed) => {
                if agreed {
                    self.connect_state.connected = false;
                    self.has_stream = false;
                }
            },
            Err(e) => {
                self.connect_state.error = Some(e);
            },
        }
    }
}

/// The lines of an answer: what line feeds end or divide. The end of the
/// answer ends its last line: no empty line follows a line feed at the end.
pub open spec fn answer_lines(s: Seq<u8>) -> Seq<Seq<u8>>
    decreases s.len(),
{
    if s.len() == 0 {
        Seq::empty()
    } else {
        let n = offset_of(s, 0x0a);
        if 0 <= n < s.len() {
            seq![s.subrange(0, n)] + answer_lines(s.subrange(n + 1, s.len() as int))
        } else {
            seq![s]
        }
    }
}

/// The first line of a text and what follows its line feed, where one stands in it.
fn split_line<'a>(text: &'a str) -> (r: Option<(&'a str, &'a str)>)
    ensures
        match r {
            Some((line, rest)) => {
                &&& offset_of(text.spec_bytes(), 0x0a) < text.spec_bytes().len()
                &&& line.spec_bytes() == text.spec_bytes().subrange(
                    0,
                    offset_of(text.spec_bytes(), 0x0a),
                )
                &&& rest.spec_bytes() == text.spec_bytes().subrange(
                    offset_of(text.spec_bytes(), 0x0a) + 1,
                    text.spec_bytes().len() as int,
                )
            },
            None => offset_of(text.spec_bytes(), 0x0a) >= text.spec_bytes().len(),
        },
        0 <= offset_of(text.spec_bytes(), 0x0a),
{
    let bytes = text.as_bytes();
    let n = find_byte(bytes, 0x0a);
    if n >= bytes.len() {
        return None;
    }
    proof {
        encode_utf8_valid_utf8(text@);
        is_char_boundary_iff_not_is_continuation_byte(text.spec_bytes(), n as int);
    }
    let (line, tail) = text.split_at(n);
    proof {
        encode_utf8_valid_utf8(tail@);
        let tb = tail.spec_bytes();
        assert(tb[0] == 0x0a);
        assert(tb.len() >= 1);
        reveal_with_fuel(is_char_boundary, 2);
        reveal_with_fuel(valid_utf8, 2);
        assert(is_char_boundary(pop_first_scalar(tb), 0));
        assert(is_char_boundary(tb, 1));
    }
    let (_, rest) = tail.split_at(1);
    assert(rest.spec_bytes() =~= text.spec_bytes().subrange(n + 1, text.spec_bytes().len() as int));
    Some((line, rest))
}

/// The lines of an answer behind its first line.
pub open spec fn lines_after_first(s: Seq<u8>) -> Seq<Seq<u8>> {
    if answer_lines(s).len() > 0 {
        answer_lines(s).subrange(1, answer_lines(s).len() as int)
    } else {
        Seq::empty()
    }
}

/// Whether `pairs` are the questions `commands` with the lines `lines`
/// that answer them, as far as both go.
pub open spec fn pairs_up(
    pairs: Seq<(PGenGetConfCommand, String)>,
    commands: Seq<PGenGetConfCommand>,
    lines: Seq<Seq<u8>>,
) -> bool {
    &&& pairs.len() == if commands.len() <= lines.len() {
        commands.len()
    } else {
        lines.len()
    }
    &&& forall|i: int|
        0 <= i < pairs.len() ==> (#[trigger] pairs[i]).0 == commands[i] && encode_utf8(pairs[i].1@)
            == lines[i]
}

/// The answers to a row of questions asked at once: the first line of what
/// came back is passed over, and each line after it goes with the question
/// at its place.
pub fn pair_get_conf_results(res: &str, commands: &[PGenGetConfCommand]) -> (r: Vec<
    (PGenGetConfCommand, String),
>)
    ensures
        pairs_up(r@, commands@, lines_after_first(res.spec_bytes())),
{
    let ghost tail = lines_after_first(res.spec_bytes());
    let mut out: Vec<(PGenGetConfCommand, String)> = Vec::new();
    if res.as_bytes().len() == 0 {
        assert(answer_lines(res.spec_bytes()).len() == 0);
        assert(tail.len() == 0);
        return out;
    }
    // the first line is passed over
    let mut rest: &str = match split_line(res) {
        Some((_, rest)) => rest,
        None => {
            assert(answer_lines(res.spec_bytes()) =~= seq![res.spec_bytes()]);
            assert(tail =~= Seq::<Seq<u8>>::empty());
            return out;
        },
    };
    proof {
        let n = offset_of(res.spec_bytes(), 0x0a);
        let first = seq![res.spec_bytes().subrange(0, n)];
        assert(answer_lines(res.spec_bytes()) == first + answer_lines(rest.spec_bytes()));
        assert(tail =~= answer_lines(rest.spec_bytes()));
        assert(tail.subrange(0, tail.len() as int) =~= tail);
    }
    let mut i: usize = 0;
    while i < commands.len() && rest.as_bytes().len() > 0
        invariant
            i <= commands.len(),
            out@.len() == i,
            i <= tail.len(),
            tail.subrange(i as int, tail.len() as int) == answer_lines(rest.spec_bytes()),
            forall|k: int|
                0 <= k < i ==> (#[trigger] out@[k]).0 == commands@[k] && encode_utf8(out@[k].1@)
                    == tail[k],
        decreases commands.len() - i,
    {
        let ghost rb = rest.spec_bytes();
        let ghost lines = answer_lines(rb);
        let ghost before = out@;
        let ghost old_rest = rest;
        let split = split_line(rest);
        let (line, next): (&str, &str) = match split {
            Some((line, next)) => (line, next),
            None => (rest, ""),
        };
        proof {
            reveal_strlit("");
            assert(""@.len() == 0);
            assert("".spec_bytes() =~= Seq::<u8>::empty());
            let n = offset_of(rb, 0x0a);
            if split.is_some() {
                assert(lines == seq![rb.subrange(0, n)] + answer_lines(next.spec_bytes()));
            } else {
                assert(lines == seq![rb]);
                assert(answer_lines(next.spec_bytes()) =~= Seq::<Seq<u8>>::empty());
            }
            assert(lines.len() >= 1);
            assert(lines[0] == line.spec_bytes());
            assert(lines.subrange(1, lines.len() as int) =~= answer_lines(next.spec_bytes()));
            assert(tail.subrange(i as int, tail.len() as int)[0] == tail[i as int]);
            assert(tail.subrange(i + 1, tail.len() as int) =~= lines.subrange(
                1,
                lines.len() as int,
            ));
        }
        out.push((commands[i], line.to_owned()));
        proof {
            assert forall|k: int| 0 <= k < i + 1 implies (#[trigger] out@[k]).0 == commands@[k]
                && encode_utf8(out@[k].1@) == tail[k] by {
                if k < i {
                    assert(out@[k] == before[k]);
                }
            }
        }
        rest = next;
        i += 1;
    }
    proof {
        if rest.spec_bytes().len() == 0 {
            assert(answer_lines(rest.spec_bytes()).len() == 0);
            assert(tail.subrange(i as int, tail.len() as int).len() == tail.len() - i);
            assert(tail.len() == i);
        } else {
            assert(i == commands@.len());
        }
        assert(out@.len() == if commands@.len() <= tail.len() {
            commands@.len()
        } else {
            tail.len()
        });
    }
    out
}

} // verus!
