//! TN3270 framing: option negotiation, IAC escaping and the queue of
//! records delimited by end-of-record marks.

use std::collections::VecDeque;

use vstd::prelude::*;

use libtelnet_rs::events::TelnetEvents;
use libtelnet_rs::Parser;

verus! {

/// Interpret-as-command, the telnet escape byte.
pub const IAC: u8 = 0xFF;
/// End-of-record command.
pub const EOR: u8 = 0xEF;
/// Negotiation command: offers an option.
pub const WILL: u8 = 0xFB;
/// Negotiation command: asks for an option.
pub const DO: u8 = 0xFD;
/// Subnegotiation begin.
pub const SB: u8 = 0xFA;
/// Subnegotiation end.
pub const SE: u8 = 0xF0;
/// Option: 8-bit binary transmission.
pub const OPT_BINARY: u8 = 0x00;
/// Option: terminal type.
pub const OPT_TTYPE: u8 = 0x18;
/// Option: end of record.
pub const OPT_EOR: u8 = 0x19;
/// Terminal-type subnegotiation: the peer names its type.
pub const TTYPE_IS: u8 = 0;
/// Terminal-type subnegotiation: ask the peer for its type.
pub const TTYPE_SEND: u8 = 1;

/// A payload with every IAC byte doubled.
pub open spec fn escaped(p: Seq<u8>) -> Seq<u8>
    decreases p.len(),
{
    if p.len() == 0 {
        seq![]
    } else if p[0] == IAC {
        seq![IAC, IAC] + escaped(p.drop_first())
    } else {
        seq![p[0]] + escaped(p.drop_first())
    }
}

/// A model of reading telnet data back: a doubled IAC stands for one IAC
/// byte. This is the protocol's rule, stated for the framing laws below; it
/// is not a statement about any particular parser.
pub open spec fn unescaped(w: Seq<u8>) -> Seq<u8>
    decreases w.len(),
{
    if w.len() == 0 {
        seq![]
    } else if w.len() >= 2 && w[0] == IAC && w[1] == IAC {
        seq![IAC] + unescaped(w.subrange(2, w.len() as int))
    } else {
        seq![w[0]] + unescaped(w.subrange(1, w.len() as int))
    }
}

/// A record as it goes on the wire: escaped, then IAC EOR.
pub open spec fn framed(p: Seq<u8>) -> Seq<u8> {
    escaped(p) + seq![IAC, EOR]
}

#[verifier::external_type_specification]
#[verifier::external_body]
pub struct ExParser(Parser);

/// The parser's option table: for each option code one byte whose bits 1,
/// 2, 4 and 8 say whether it is supported locally, supported remotely,
/// enabled locally and enabled remotely.
pub uninterp spec fn option_table(p: Parser) -> Seq<u8>;

/// The input bytes that the parser holds back until a sequence is complete.
pub uninterp spec fn pending_input(p: Parser) -> Seq<u8>;

/// What the parser makes of new bytes, given its held-back input and its
/// option table: the events, then the held-back input and table after them.
pub uninterp spec fn telnet_receive(pending: Seq<u8>, table: Seq<u8>, data: Seq<u8>) -> (
    Seq<TelnetEventView>,
    Seq<u8>,
    Seq<u8>,
);

/// Bit `bit` of an option table entry.
pub open spec fn flag(v: u8, bit: int) -> bool {
    (v as int / bit) % 2 == 1
}

pub open spec fn opt_local(t: Seq<u8>, o: u8) -> bool {
    flag(t[o as int], 1)
}

pub open spec fn opt_remote(t: Seq<u8>, o: u8) -> bool {
    flag(t[o as int], 2)
}

pub open spec fn opt_local_state(t: Seq<u8>, o: u8) -> bool {
    flag(t[o as int], 4)
}

pub open spec fn opt_remote_state(t: Seq<u8>, o: u8) -> bool {
    flag(t[o as int], 8)
}

/// An option is active when it is enabled both ways.
pub open spec fn opt_active(t: Seq<u8>, o: u8) -> bool {
    opt_local_state(t, o) && opt_remote_state(t, o)
}

/// The table entry for four flags.
pub open spec fn entry_byte(l: bool, r: bool, ls: bool, rs: bool) -> u8 {
    ((if l { 1int } else { 0 }) + (if r { 2int } else { 0 }) + (if ls { 4int } else { 0 }) + (if rs {
        8int
    } else {
        0
    })) as u8
}

/// The table with the entry of `o` rebuilt from four flags.
pub open spec fn with_entry(t: Seq<u8>, o: u8, l: bool, r: bool, ls: bool, rs: bool) -> Seq<u8> {
    t.update(o as int, entry_byte(l, r, ls, rs))
}

/// A WILL is sent for an option supported locally and not yet enabled.
pub open spec fn will_offered(t: Seq<u8>, o: u8) -> bool {
    opt_local(t, o) && !opt_local_state(t, o)
}

/// The table after offering an option: enabled locally when offered.
pub open spec fn after_will(t: Seq<u8>, o: u8) -> Seq<u8> {
    if will_offered(t, o) {
        with_entry(t, o, opt_local(t, o), opt_remote(t, o), true, opt_remote_state(t, o))
    } else {
        t
    }
}

/// The bytes of offering an option.
pub open spec fn will_bytes(t: Seq<u8>, o: u8) -> Seq<u8> {
    if will_offered(t, o) {
        seq![IAC, WILL, o]
    } else {
        seq![]
    }
}

/// The bytes of asking for an option: sent for one supported remotely and
/// not yet enabled there.
pub open spec fn do_bytes(t: Seq<u8>, o: u8) -> Seq<u8> {
    if opt_remote(t, o) && !opt_remote_state(t, o) {
        seq![IAC, DO, o]
    } else {
        seq![]
    }
}

/// The bytes of a subnegotiation: sent for an option supported and enabled
/// locally.
pub open spec fn sub_bytes(t: Seq<u8>, o: u8, data: Seq<u8>) -> Seq<u8> {
    if opt_local(t, o) && opt_local_state(t, o) {
        seq![IAC, SB, o] + escaped(data) + seq![IAC, SE]
    } else {
        seq![]
    }
}

/// The bytes that a send event carries, if there is one.
pub open spec fn sent_bytes(sent: Option<Vec<u8>>) -> Seq<u8> {
    match sent {
        Some(v) => v@,
        None => seq![],
    }
}

/// Relies on libtelnet_rs::Parser::escape_iac: each 0xFF byte is followed by
/// a second one, every byte kept in order.
#[verifier::external_body]
fn escape_iac(data: &[u8]) -> (r: Vec<u8>)
    ensures
        r@ == escaped(data@),
{
    Parser::escape_iac(data.to_vec()).to_vec()
}

/// Relies on libtelnet_rs::Parser::new: an empty buffer and a table of 256
/// zero entries.
#[verifier::external_body]
fn new_parser() -> (r: Parser)
    ensures
        option_table(r) == Seq::new(256, |i: int| 0u8),
        pending_input(r) == Seq::<u8>::empty(),
{
    Parser::new()
}

/// Relies on CompatibilityTable::support: the entry is rebuilt with both
/// support flags set.
#[verifier::external_body]
fn support(parser: &mut Parser, option: u8)
    ensures
        ({
            let t = option_table(*old(parser));
            option_table(*final(parser)) == with_entry(
                t,
                option,
                true,
                true,
                opt_local_state(t, option),
                opt_remote_state(t, option),
            )
        }),
        pending_input(*final(parser)) == pending_input(*old(parser)),
{
    parser.options.support(option)
}

/// Relies on CompatibilityTable::support_remote: the entry is rebuilt with
/// the remote support flag set.
#[verifier::external_body]
fn support_remote(parser: &mut Parser, option: u8)
    ensures
        ({
            let t = option_table(*old(parser));
            option_table(*final(parser)) == with_entry(
                t,
                option,
                opt_local(t, option),
                true,
                opt_local_state(t, option),
                opt_remote_state(t, option),
            )
        }),
        pending_input(*final(parser)) == pending_input(*old(parser)),
{
    parser.options.support_remote(option)
}

/// Relies on CompatibilityTable::get_option: the (local, remote) states of
/// an option.
#[verifier::external_body]
fn option_states(parser: &Parser, option: u8) -> (r: (bool, bool))
    ensures
        r == (opt_local_state(option_table(*parser), option), opt_remote_state(option_table(*parser), option)),
{
    let entry = parser.options.get_option(option);
    (entry.local_state, entry.remote_state)
}

/// Relies on libtelnet_rs::Parser::receive: its events, each moved into its
/// counterpart.
#[verifier::external_body]
fn parser_receive(parser: &mut Parser, data: &[u8]) -> (r: Vec<TelnetEvent>)
    ensures
        ({
            let res = telnet_receive(pending_input(*old(parser)), option_table(*old(parser)), data@);
            &&& r@.map_values(|e: TelnetEvent| e@) == res.0
            &&& pending_input(*final(parser)) == res.1
            &&& option_table(*final(parser)) == res.2
        }),
{
    let mut r = Vec::new();
    for e in parser.receive(data) {
        r.push(match e {
            TelnetEvents::IAC(i) => TelnetEvent::Iac(i.command),
            TelnetEvents::Negotiation(n) => TelnetEvent::Negotiation(n.command, n.option),
            TelnetEvents::Subnegotiation(s) => TelnetEvent::Subnegotiation(s.option, s.buffer.to_vec()),
            TelnetEvents::DataReceive(b) => TelnetEvent::DataReceive(b.to_vec()),
            TelnetEvents::DataSend(b) => TelnetEvent::DataSend(b.to_vec()),
            TelnetEvents::DecompressImmediate(b) => TelnetEvent::DecompressImmediate(b.to_vec()),
        });
    }
    r
}

/// Relies on libtelnet_rs::Parser::_will: for an option supported and not
/// enabled locally it enables it and sends IAC WILL option; else nothing.
#[verifier::external_body]
fn offer_will(parser: &mut Parser, option: u8) -> (r: Option<Vec<u8>>)
    ensures
        sent_bytes(r) == will_bytes(option_table(*old(parser)), option),
        option_table(*final(parser)) == after_will(option_table(*old(parser)), option),
        pending_input(*final(parser)) == pending_input(*old(parser)),
{
    match parser._will(option) {
        Some(TelnetEvents::DataSend(b)) => Some(b.to_vec()),
        _ => None,
    }
}

/// Relies on libtelnet_rs::Parser::_do: for an option supported and not
/// enabled remotely it sends IAC DO option; else nothing. The table stays.
#[verifier::external_body]
fn offer_do(parser: &mut Parser, option: u8) -> (r: Option<Vec<u8>>)
    ensures
        sent_bytes(r) == do_bytes(option_table(*old(parser)), option),
        option_table(*final(parser)) == option_table(*old(parser)),
        pending_input(*final(parser)) == pending_input(*old(parser)),
{
    match parser._do(option) {
        Some(TelnetEvents::DataSend(b)) => Some(b.to_vec()),
        _ => None,
    }
}

/// Relies on libtelnet_rs::Parser::subnegotiation: for an option supported
/// and enabled locally it sends IAC SB option, the escaped data, IAC SE;
/// else nothing. The table stays.
#[verifier::external_body]
fn subnegotiation(parser: &mut Parser, option: u8, data: &[u8]) -> (r: Option<Vec<u8>>)
    ensures
        sent_bytes(r) == sub_bytes(option_table(*old(parser)), option, data@),
        option_table(*final(parser)) == option_table(*old(parser)),
        pending_input(*final(parser)) == pending_input(*old(parser)),
{
    match parser.subnegotiation(option, data.to_vec()) {
        Some(TelnetEvents::DataSend(b)) => Some(b.to_vec()),
        _ => None,
    }
}

/// What the telnet parser reports.
pub enum TelnetEvent {
    /// Bytes to send to the peer.
    DataSend(Vec<u8>),
    /// Payload bytes from the peer.
    DataReceive(Vec<u8>),
    /// A two-byte command such as end of record.
    Iac(u8),
    /// A negotiation command and its option.
    Negotiation(u8, u8),
    /// A subnegotiation: its option and payload.
    Subnegotiation(u8, Vec<u8>),
    /// Data that would have to be decompressed first.
    DecompressImmediate(Vec<u8>),
}

/// A parser event as a value.
pub enum TelnetEventView {
    DataSend(Seq<u8>),
    DataReceive(Seq<u8>),
    Iac(u8),
    Negotiation(u8, u8),
    Subnegotiation(u8, Seq<u8>),
    DecompressImmediate(Seq<u8>),
}

impl View for TelnetEvent {
    type V = TelnetEventView;

    open spec fn view(&self) -> TelnetEventView {
        match self {
            TelnetEvent::DataSend(d) => TelnetEventView::DataSend(d@),
            TelnetEvent::DataReceive(d) => TelnetEventView::DataReceive(d@),
            TelnetEvent::Iac(c) => TelnetEventView::Iac(*c),
            TelnetEvent::Negotiation(c, o) => TelnetEventView::Negotiation(*c, *o),
            TelnetEvent::Subnegotiation(o, b) => TelnetEventView::Subnegotiation(*o, b@),
            TelnetEvent::DecompressImmediate(d) => TelnetEventView::DecompressImmediate(d@),
        }
    }
}

/// Why the telnet layer cannot go on.
#[derive(Clone, Copy, Debug, PartialEq, Eq, Structural)]
pub enum TelnetError {
    /// The peer started stream compression, which is not supported.
    CompressionUnsupported,
}

/// Frames a record for the wire: IAC bytes doubled, then IAC EOR.
pub fn frame_record(record: &[u8]) -> (r: Vec<u8>)
    ensures
        r@ == framed(record@),
{
    let mut out = escape_iac(record);
    out.push(IAC);
    out.push(EOR);
    assert(out@ =~= framed(record@));
    out
}

/// The negotiation flags, parser contents and record queue of a session,
/// as values.
pub struct TelnetStateView {
    pub term_type: Option<Seq<u8>>,
    pub is_eor: bool,
    pub is_bin: bool,
    pub options: Seq<u8>,
    pub pending: Seq<u8>,
    pub records: Seq<Seq<u8>>,
    pub current: Seq<u8>,
}

/// The telnet side of a session: the parser, the negotiated flags, the
/// complete records not yet taken and the record being received.
pub struct TelnetState {
    parser: Parser,
    term_type: Option<Vec<u8>>,
    is_eor: bool,
    is_bin: bool,
    incoming_records: VecDeque<Vec<u8>>,
    cur_record: Vec<u8>,
}

impl View for TelnetState {
    type V = TelnetStateView;

    closed spec fn view(&self) -> TelnetStateView {
        TelnetStateView {
            term_type: match self.term_type {
                Some(t) => Some(t@),
                None => None,
            },
            is_eor: self.is_eor,
            is_bin: self.is_bin,
            options: option_table(self.parser),
            pending: pending_input(self.parser),
            records: self.incoming_records@.map_values(|r: Vec<u8>| r@),
            current: self.cur_record@,
        }
    }
}

/// The option table of a new session: terminal type, end of record and
/// binary supported both ways, nothing enabled.
pub open spec fn initial_options() -> Seq<u8> {
    Seq::new(256, |i: int| 0u8).update(OPT_EOR as int, 3).update(OPT_TTYPE as int, 3).update(
        OPT_BINARY as int,
        3,
    )
}

/// After the terminal type is known: offer and ask for end of record, then
/// binary. The table and the bytes sent.
pub open spec fn reply_offers(t: Seq<u8>) -> (Seq<u8>, Seq<u8>) {
    let t1 = after_will(t, OPT_EOR);
    let t2 = after_will(t1, OPT_BINARY);
    (t2, will_bytes(t, OPT_EOR) + do_bytes(t1, OPT_EOR) + will_bytes(t1, OPT_BINARY) + do_bytes(t2, OPT_BINARY))
}

/// One event handled: the state, the output and the result after it.
///
/// Send events go to the output; payload joins the record being received;
/// end of record moves it to the queue; an offer of the terminal type is
/// answered by asking for it (SB TTYPE SEND SE); a terminal-type reply
/// records the name and offers end of record and binary both ways; other
/// negotiations set the end-of-record and binary flags from the option
/// table; compression is refused.
pub open spec fn step(s: TelnetStateView, out: Seq<u8>, ev: TelnetEventView) -> (
    TelnetStateView,
    Seq<u8>,
    Result<(), TelnetError>,
) {
    match ev {
        TelnetEventView::DataSend(d) => (s, out + d, Ok(())),
        TelnetEventView::DataReceive(d) => (s.after_data(d), out, Ok(())),
        TelnetEventView::Iac(c) => (
            if c == EOR {
                s.after_eor()
            } else {
                s
            },
            out,
            Ok(()),
        ),
        TelnetEventView::Negotiation(cmd, opt) => if cmd == WILL && opt == OPT_TTYPE {
            (s, out + sub_bytes(s.options, OPT_TTYPE, seq![TTYPE_SEND]), Ok(()))
        } else {
            (
                TelnetStateView {
                    is_eor: opt_active(s.options, OPT_EOR),
                    is_bin: opt_active(s.options, OPT_BINARY),
                    ..s
                },
                out,
                Ok(()),
            )
        },
        TelnetEventView::Subnegotiation(opt, buf) => if opt == OPT_TTYPE && buf.len() > 0 && buf[0]
            == TTYPE_IS {
            let (t, sent) = reply_offers(s.options);
            (
                TelnetStateView { term_type: Some(buf.subrange(1, buf.len() as int)), options: t, ..s },
                out + sent,
                Ok(()),
            )
        } else {
            (s, out, Ok(()))
        },
        TelnetEventView::DecompressImmediate(_) => (s, out, Err(TelnetError::CompressionUnsupported)),
    }
}

/// Events handled in turn, up to and including the first that fails.
pub open spec fn steps(s: TelnetStateView, out: Seq<u8>, evs: Seq<TelnetEventView>) -> (
    TelnetStateView,
    Seq<u8>,
    Result<(), TelnetError>,
)
    decreases evs.len(),
{
    if evs.len() == 0 {
        (s, out, Ok(()))
    } else {
        let (s2, o2, r) = step(s, out, evs[0]);
        if r is Err {
            (s2, o2, r)
        } else {
            steps(s2, o2, evs.drop_first())
        }
    }
}

impl TelnetStateView {
    /// Terminal type known, end of record and binary on both ways.
    pub open spec fn ready(self) -> bool {
        self.term_type is Some && self.is_eor && self.is_bin
    }

    /// The state after payload bytes arrive.
    pub open spec fn after_data(self, d: Seq<u8>) -> TelnetStateView {
        TelnetStateView { current: self.current + d, ..self }
    }

    /// The state after an end-of-record mark.
    pub open spec fn after_eor(self) -> TelnetStateView {
        TelnetStateView { records: self.records.push(self.current), current: seq![], ..self }
    }

    /// The state after the oldest complete record is taken.
    pub open spec fn after_pop(self) -> TelnetStateView {
        if self.records.len() == 0 {
            self
        } else {
            TelnetStateView { records: self.records.drop_first(), ..self }
        }
    }

    /// The record that the next take hands out.
    pub open spec fn next_record(self) -> Option<Seq<u8>> {
        if self.records.len() == 0 {
            None
        } else {
            Some(self.records[0])
        }
    }
}

/// Handling events only ever adds to the output and to the record queue.
pub proof fn lemma_steps_extend(s: TelnetStateView, out: Seq<u8>, evs: Seq<TelnetEventView>)
    ensures
        out.is_prefix_of(steps(s, out, evs).1),
        s.records.is_prefix_of(steps(s, out, evs).0.records),
    decreases evs.len(),
{
    if evs.len() > 0 {
        let (s2, o2, r) = step(s, out, evs[0]);
        assert(out.is_prefix_of(o2));
        assert(s.records.is_prefix_of(s2.records));
        if r is Ok {
            lemma_steps_extend(s2, o2, evs.drop_first());
        }
    }
}

impl TelnetState {
    /// A session that supports terminal type, end of record and binary both
    /// ways, with nothing negotiated or received yet.
    pub fn new() -> (r: TelnetState)
        ensures
            r@.term_type is None,
            !r@.is_eor,
            !r@.is_bin,
            r@.options == initial_options(),
            r@.pending == Seq::<u8>::empty(),
            r@.records == Seq::<Seq<u8>>::empty(),
            r@.current == Seq::<u8>::empty(),
    {
        let mut parser = new_parser();
        support(&mut parser, OPT_EOR);
        support_remote(&mut parser, OPT_TTYPE);
        support(&mut parser, OPT_TTYPE);
        support(&mut parser, OPT_BINARY);
        let r = TelnetState {
            parser,
            term_type: None,
            is_eor: false,
            is_bin: false,
            incoming_records: VecDeque::new(),
            cur_record: Vec::new(),
        };
        assert(r@.records =~= Seq::<Seq<u8>>::empty());
        assert(r@.options =~= initial_options());
        r
    }

    /// Terminal type known, end of record and binary on both ways.
    pub fn is_ready(&self) -> (r: bool)
        ensures
            r == self@.ready(),
    {
        self.term_type.is_some() && self.is_bin && self.is_eor
    }

    /// The terminal type that the peer named, once it has.
    pub fn term_type(&self) -> (r: Option<&Vec<u8>>)
        ensures
            match r {
                Some(t) => self@.term_type == Some(t@),
                None => self@.term_type is None,
            },
    {
        self.term_type.as_ref()
    }

    /// Takes the oldest complete record.
    pub fn pop_record(&mut self) -> (r: Option<Vec<u8>>)
        ensures
            final(self)@ == old(self)@.after_pop(),
            match r {
                Some(v) => old(self)@.next_record() == Some(v@),
                None => old(self)@.next_record() is None,
            },
    {
        let r = self.incoming_records.pop_front();
        assert(self@.records =~= old(self)@.after_pop().records);
        r
    }

    /// Appends `src` to `dst`.
    fn append_bytes(dst: &mut Vec<u8>, src: &Vec<u8>)
        ensures
            final(dst)@ == old(dst)@ + src@,
    {
        let mut i: usize = 0;
        while i < src.len()
            invariant
                i <= src@.len(),
                dst@ == old(dst)@ + src@.subrange(0, i as int),
            decreases src@.len() - i,
        {
            dst.push(src[i]);
            i += 1;
            assert(old(dst)@ + src@.subrange(0, i as int) =~= (old(dst)@ + src@.subrange(0, i - 1)).push(src@[i - 1]));
        }
        assert(src@.subrange(0, src@.len() as int) =~= src@);
    }

    /// Appends the bytes of a send event, if there is one.
    fn append_sent(out: &mut Vec<u8>, sent: Option<Vec<u8>>)
        ensures
            final(out)@ == old(out)@ + sent_bytes(sent),
    {
        if let Some(bytes) = sent {
            TelnetState::append_bytes(out, &bytes);
        } else {
            assert(out@ =~= old(out)@ + sent_bytes(sent));
        }
    }

    /// Reacts to one parser event, adding what must be sent to `out`.
    pub fn handle_event(&mut self, event: &TelnetEvent, out: &mut Vec<u8>) -> (r: Result<(), TelnetError>)
        ensures
            (final(self)@, final(out)@, r) == step(old(self)@, old(out)@, event@),
    {
        match event {
            TelnetEvent::DataSend(d) => {
                TelnetState::append_bytes(out, d);
                assert(self@ == old(self)@);
                Ok(())
            },
            TelnetEvent::DataReceive(d) => {
                TelnetState::append_bytes(&mut self.cur_record, d);
                assert(self@ == old(self)@.after_data(d@));
                Ok(())
            },
            TelnetEvent::Iac(c) => {
                if *c == EOR {
                    let mut record: Vec<u8> = Vec::new();
                    std::mem::swap(&mut record, &mut self.cur_record);
                    self.incoming_records.push_back(record);
                    assert(self@.records =~= old(self)@.after_eor().records);
                    assert(self@.current =~= Seq::<u8>::empty());
                    assert(self@ == old(self)@.after_eor());
                } else {
                    assert(self@ == old(self)@);
                }
                Ok(())
            },
            TelnetEvent::Negotiation(cmd, opt) => {
                if *cmd == WILL && *opt == OPT_TTYPE {
                    let request: Vec<u8> = vec![TTYPE_SEND];
                    assert(request@ =~= seq![TTYPE_SEND]);
                    let send = subnegotiation(&mut self.parser, OPT_TTYPE, request.as_slice());
                    TelnetState::append_sent(out, send);
                    assert(self@ == old(self)@);
                } else {
                    let (eor_local, eor_remote) = option_states(&self.parser, OPT_EOR);
                    let (bin_local, bin_remote) = option_states(&self.parser, OPT_BINARY);
                    self.is_eor = eor_local && eor_remote;
                    self.is_bin = bin_local && bin_remote;
                    assert(self@ == (TelnetStateView {
                        is_eor: opt_active(old(self)@.options, OPT_EOR),
                        is_bin: opt_active(old(self)@.options, OPT_BINARY),
                        ..old(self)@
                    }));
                }
                Ok(())
            },
            TelnetEvent::Subnegotiation(opt, buf) => {
                if *opt == OPT_TTYPE && buf.len() > 0 && buf[0] == TTYPE_IS {
                    let mut name: Vec<u8> = Vec::new();
                    let mut i: usize = 1;
                    while i < buf.len()
                        invariant
                            1 <= i <= buf@.len(),
                            name@ == buf@.subrange(1, i as int),
                        decreases buf@.len() - i,
                    {
                        name.push(buf[i]);
                        i += 1;
                        assert(name@ =~= buf@.subrange(1, i as int));
                    }
                    self.term_type = Some(name);
                    TelnetState::append_sent(out, offer_will(&mut self.parser, OPT_EOR));
                    TelnetState::append_sent(out, offer_do(&mut self.parser, OPT_EOR));
                    TelnetState::append_sent(out, offer_will(&mut self.parser, OPT_BINARY));
                    TelnetState::append_sent(out, offer_do(&mut self.parser, OPT_BINARY));
                    assert(out@ =~= old(out)@ + reply_offers(old(self)@.options).1);
                    assert(self@ == (TelnetStateView {
                        term_type: Some(buf@.subrange(1, buf@.len() as int)),
                        options: reply_offers(old(self)@.options).0,
                        ..old(self)@
                    }));
                } else {
                    assert(self@ == old(self)@);
                }
                Ok(())
            },
            TelnetEvent::DecompressImmediate(_) => Err(TelnetError::CompressionUnsupported),
        }
    }

    /// Reacts to each event in turn, stopping at the first that fails.
    pub fn handle_events(&mut self, events: &Vec<TelnetEvent>, out: &mut Vec<u8>) -> (r: Result<(), TelnetError>)
        ensures
            (final(self)@, final(out)@, r) == steps(old(self)@, old(out)@, events@.map_values(|e: TelnetEvent| e@)),
    {
        let ghost evs = events@.map_values(|e: TelnetEvent| e@);
        assert(evs.subrange(0, evs.len() as int) =~= evs);
        let mut i: usize = 0;
        while i < events.len()
            invariant
                i <= events@.len(),
                evs == events@.map_values(|e: TelnetEvent| e@),
                steps(old(self)@, old(out)@, evs) == steps(self@, out@, evs.subrange(i as int, evs.len() as int)),
            decreases events@.len() - i,
        {
            let ghost rest = evs.subrange(i as int, evs.len() as int);
            assert(rest[0] == events@[i as int]@);
            assert(rest.drop_first() =~= evs.subrange(i + 1, evs.len() as int));
            let r = self.handle_event(&events[i], out);
            if r.is_err() {
                return r;
            }
            i += 1;
        }
        Ok(())
    }

    /// Starts negotiation: asks for the terminal type, then offers it; the
    /// bytes to send are added to `out`. On a new session these are
    /// IAC DO TTYPE, IAC WILL TTYPE.
    pub fn start_negotiation(&mut self, out: &mut Vec<u8>)
        ensures
            final(self)@ == (TelnetStateView { options: after_will(old(self)@.options, OPT_TTYPE), ..old(self)@ }),
            final(out)@ == old(out)@ + do_bytes(old(self)@.options, OPT_TTYPE) + will_bytes(
                old(self)@.options,
                OPT_TTYPE,
            ),
            old(self)@.options == initial_options() ==> final(out)@ == old(out)@ + seq![
                IAC,
                DO,
                OPT_TTYPE,
                IAC,
                WILL,
                OPT_TTYPE,
            ],
    {
        TelnetState::append_sent(out, offer_do(&mut self.parser, OPT_TTYPE));
        TelnetState::append_sent(out, offer_will(&mut self.parser, OPT_TTYPE));
        assert(self@.records =~= old(self)@.records);
        proof {
            if old(self)@.options == initial_options() {
                let t = initial_options();
                assert(t[OPT_TTYPE as int] == 3);
                assert(out@ =~= old(out)@ + seq![IAC, DO, OPT_TTYPE, IAC, WILL, OPT_TTYPE]);
            }
        }
    }

    /// Feeds bytes from the peer through the parser and reacts to each event
    /// in turn, stopping at the first that fails; the bytes to send are added
    /// to `out`.
    pub fn receive(&mut self, data: &[u8], out: &mut Vec<u8>) -> (r: Result<(), TelnetError>)
        ensures
            ({
                let res = telnet_receive(old(self)@.pending, old(self)@.options, data@);
                let s0 = TelnetStateView { pending: res.1, options: res.2, ..old(self)@ };
                (final(self)@, final(out)@, r) == steps(s0, old(out)@, res.0)
            }),
            old(out)@.is_prefix_of(final(out)@),
            old(self)@.records.is_prefix_of(final(self)@.records),
    {
        let events = parser_receive(&mut self.parser, data);
        let ghost s0 = self@;
        assert(s0.records =~= old(self)@.records);
        let r = self.handle_events(&events, out);
        proof {
            lemma_steps_extend(s0, old(out)@, events@.map_values(|e: TelnetEvent| e@));
        }
        r
    }
}

/// A payload without IAC bytes goes on the wire as it is, followed by
/// IAC EOR.
pub proof fn lemma_frame_without_iac(p: Seq<u8>)
    requires
        forall|i: int| 0 <= i < p.len() ==> p[i] != IAC,
    ensures
        framed(p) == p + seq![IAC, EOR],
{
    lemma_escape_without_iac(p);
}

/// A payload without IAC bytes is its own escaped form.
pub proof fn lemma_escape_without_iac(p: Seq<u8>)
    requires
        forall|i: int| 0 <= i < p.len() ==> p[i] != IAC,
    ensures
        escaped(p) == p,
    decreases p.len(),
{
    if p.len() > 0 {
        lemma_escape_without_iac(p.drop_first());
        assert(seq![p[0]] + p.drop_first() =~= p);
    }
}

/// Reading back an escaped payload as telnet data gives the payload.
pub proof fn lemma_unescape_escaped(p: Seq<u8>)
    ensures
        unescaped(escaped(p)) == p,
    decreases p.len(),
{
    if p.len() > 0 {
        lemma_unescape_escaped(p.drop_first());
        let w = escaped(p);
        if p[0] == IAC {
            assert(w.subrange(2, w.len() as int) =~= escaped(p.drop_first()));
        } else {
            assert(w.subrange(1, w.len() as int) =~= escaped(p.drop_first()));
        }
        assert(seq![p[0]] + p.drop_first() =~= p);
    }
}

/// Records that arrive one after the other are taken in the order they
/// arrived.
pub proof fn lemma_records_in_order(s: TelnetStateView, r1: Seq<u8>, r2: Seq<u8>, r3: Seq<u8>)
    requires
        s.records.len() == 0,
        s.current.len() == 0,
    ensures
        ({
            let t = s.after_data(r1).after_eor().after_data(r2).after_eor().after_data(r3).after_eor();
            &&& t.next_record() == Some(r1)
            &&& t.after_pop().next_record() == Some(r2)
            &&& t.after_pop().after_pop().next_record() == Some(r3)
            &&& t.after_pop().after_pop().after_pop().next_record() is None
        }),
{
    assert(s.current + r1 =~= r1);
    assert(Seq::<u8>::empty() + r2 =~= r2);
    assert(Seq::<u8>::empty() + r3 =~= r3);
    let t = s.after_data(r1).after_eor().after_data(r2).after_eor().after_data(r3).after_eor();
    assert(t.records =~= seq![r1, r2, r3]);
    assert(t.after_pop().records =~= seq![r2, r3]);
    assert(t.after_pop().after_pop().records =~= seq![r3]);
}

} // verus!
