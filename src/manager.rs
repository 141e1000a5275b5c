//! Manager-level records: support answers, inhibitors and scheduled shutdowns.

use vstd::prelude::*;
use crate::text::lemma_trimmed_unchanged;
use crate::text::same_text;
use crate::token::{from_token, spec_from_token, WireToken};
use vstd::string::*;
use crate::wire::{
    arity_error, expect_fields, field_error, str_field, str_of, u32_field, u32_of, u64_field,
    u64_of, DecodeError, WireRecord, WireValue,
};

verus! {

/// Answer to a "can the caller do this" query. `Invalid` stands for a reply outside the known tokens.
#[derive(Debug, Clone, Copy, PartialEq, Eq, Hash, Structural)]
pub enum IsSupported {
    NA,
    Yes,
    No,
    Challenge,
    Invalid,
}

impl WireToken for IsSupported {
    open spec fn spec_token(self) -> Option<Seq<char>> {
        match self {
            IsSupported::NA => Some("na"@),
            IsSupported::Yes => Some("yes"@),
            IsSupported::No => Some("no"@),
            IsSupported::Challenge => Some("challenge"@),
            IsSupported::Invalid => None,
        }
    }

    open spec fn spec_parse(t: Seq<char>) -> Self {
        if t == "na"@ {
            IsSupported::NA
        } else if t == "yes"@ {
            IsSupported::Yes
        } else if t == "no"@ {
            IsSupported::No
        } else if t == "challenge"@ {
            IsSupported::Challenge
        } else {
            IsSupported::Invalid
        }
    }

    proof fn lemma_token_parses(self) {
        reveal_strlit("na");
        reveal_strlit("yes");
        reveal_strlit("no");
        reveal_strlit("challenge");
        if let Some(t) = self.spec_token() {
            lemma_trimmed_unchanged(t);
        }
    }

    proof fn lemma_parse_inverse(t: Seq<char>) {
    }

    fn parse_trimmed(t: &str) -> (r: Self) {
        if same_text(t, "na") {
            IsSupported::NA
        } else if same_text(t, "yes") {
            IsSupported::Yes
        } else if same_text(t, "no") {
            IsSupported::No
        } else if same_text(t, "challenge") {
            IsSupported::Challenge
        } else {
            IsSupported::Invalid
        }
    }

    fn token(&self) -> (r: Option<&'static str>) {
        match self {
            IsSupported::NA => Some("na"),
            IsSupported::Yes => Some("yes"),
            IsSupported::No => Some("no"),
            IsSupported::Challenge => Some("challenge"),
            IsSupported::Invalid => None,
        }
    }
}

/// What an inhibitor holds back. `Invalid` stands for a text outside the known tokens.
#[derive(Debug, Clone, Copy, PartialEq, Eq, Hash, Structural)]
pub enum InhibitType {
    Shutdown,
    Sleep,
    Idle,
    HandlePowerKey,
    HandleSuspendKey,
    HandleHibernateKey,
    HandleLidSwitch,
    Invalid,
}

impl WireToken for InhibitType {
    open spec fn spec_token(self) -> Option<Seq<char>> {
        match self {
            InhibitType::Shutdown => Some("shutdown"@),
            InhibitType::Sleep => Some("sleep"@),
            InhibitType::Idle => Some("idle"@),
            InhibitType::HandlePowerKey => Some("handle-power-key"@),
            InhibitType::HandleSuspendKey => Some("handle-suspend-key"@),
            InhibitType::HandleHibernateKey => Some("handle-hibernate-key"@),
            InhibitType::HandleLidSwitch => Some("handle-lid-switch"@),
            InhibitType::Invalid => None,
        }
    }

    open spec fn spec_parse(t: Seq<char>) -> Self {
        if t == "shutdown"@ {
            InhibitType::Shutdown
        } else if t == "sleep"@ {
            InhibitType::Sleep
        } else if t == "idle"@ {
            InhibitType::Idle
        } else if t == "handle-power-key"@ {
            InhibitType::HandlePowerKey
        } else if t == "handle-suspend-key"@ {
            InhibitType::HandleSuspendKey
        } else if t == "handle-hibernate-key"@ {
            InhibitType::HandleHibernateKey
        } else if t == "handle-lid-switch"@ {
            InhibitType::HandleLidSwitch
        } else {
            InhibitType::Invalid
        }
    }

    proof fn lemma_token_parses(self) {
        reveal_strlit("shutdown");
        reveal_strlit("sleep");
        reveal_strlit("idle");
        reveal_strlit("handle-power-key");
        reveal_strlit("handle-suspend-key");
        reveal_strlit("handle-hibernate-key");
        reveal_strlit("handle-lid-switch");
        if let Some(t) = self.spec_token() {
            lemma_trimmed_unchanged(t);
        }
    }

    proof fn lemma_parse_inverse(t: Seq<char>) {
    }

    fn parse_trimmed(t: &str) -> (r: Self) {
        if same_text(t, "shutdown") {
            InhibitType::Shutdown
        } else if same_text(t, "sleep") {
            InhibitType::Sleep
        } else if same_text(t, "idle") {
            InhibitType::Idle
        } else if same_text(t, "handle-power-key") {
            InhibitType::HandlePowerKey
        } else if same_text(t, "handle-suspend-key") {
            InhibitType::HandleSuspendKey
        } else if same_text(t, "handle-hibernate-key") {
            InhibitType::HandleHibernateKey
        } else if same_text(t, "handle-lid-switch") {
            InhibitType::HandleLidSwitch
        } else {
            InhibitType::Invalid
        }
    }

    fn token(&self) -> (r: Option<&'static str>) {
        match self {
            InhibitType::Shutdown => Some("shutdown"),
            InhibitType::Sleep => Some("sleep"),
            InhibitType::Idle => Some("idle"),
            InhibitType::HandlePowerKey => Some("handle-power-key"),
            InhibitType::HandleSuspendKey => Some("handle-suspend-key"),
            InhibitType::HandleHibernateKey => Some("handle-hibernate-key"),
            InhibitType::HandleLidSwitch => Some("handle-lid-switch"),
            InhibitType::Invalid => None,
        }
    }
}

/// How an inhibitor acts. `Invalid` stands for a text outside the known tokens.
#[derive(Debug, Clone, Copy, PartialEq, Eq, Hash, Structural)]
pub enum Mode {
    Block,
    Delay,
    Invalid,
}

impl WireToken for Mode {
    open spec fn spec_token(self) -> Option<Seq<char>> {
        match self {
            Mode::Block => Some("block"@),
            Mode::Delay => Some("delay"@),
            Mode::Invalid => None,
        }
    }

    open spec fn spec_parse(t: Seq<char>) -> Self {
        if t == "block"@ {
            Mode::Block
        } else if t == "delay"@ {
            Mode::Delay
        } else {
            Mode::Invalid
        }
    }

    proof fn lemma_token_parses(self) {
        reveal_strlit("block");
        reveal_strlit("delay");
        if let Some(t) = self.spec_token() {
            lemma_trimmed_unchanged(t);
        }
    }

    proof fn lemma_parse_inverse(t: Seq<char>) {
    }

    fn parse_trimmed(t: &str) -> (r: Self) {
        if same_text(t, "block") {
            Mode::Block
        } else if same_text(t, "delay") {
            Mode::Delay
        } else {
            Mode::Invalid
        }
    }

    fn token(&self) -> (r: Option<&'static str>) {
        match self {
            Mode::Block => Some("block"),
            Mode::Delay => Some("delay"),
            Mode::Invalid => None,
        }
    }
}

/// Kind of a scheduled shutdown. `Invalid` stands for a text outside the known tokens.
#[derive(Debug, Clone, Copy, PartialEq, Eq, Hash, Structural)]
pub enum ShutdownType {
    PowerOff,
    DryPowerOff,
    Reboot,
    DryReboot,
    Halt,
    DryHalt,
    Invalid,
}

impl WireToken for ShutdownType {
    open spec fn spec_token(self) -> Option<Seq<char>> {
        match self {
            ShutdownType::PowerOff => Some("poweroff"@),
            ShutdownType::DryPowerOff => Some("dry-poweroff"@),
            ShutdownType::Reboot => Some("reboot"@),
            ShutdownType::DryReboot => Some("dry-reboot"@),
            ShutdownType::Halt => Some("halt"@),
            ShutdownType::DryHalt => Some("dry-halt"@),
            ShutdownType::Invalid => None,
        }
    }

    open spec fn spec_parse(t: Seq<char>) -> Self {
        if t == "poweroff"@ {
            ShutdownType::PowerOff
        } else if t == "dry-poweroff"@ {
            ShutdownType::DryPowerOff
        } else if t == "reboot"@ {
            ShutdownType::Reboot
        } else if t == "dry-reboot"@ {
            ShutdownType::DryReboot
        } else if t == "halt"@ {
            ShutdownType::Halt
        } else if t == "dry-halt"@ {
            ShutdownType::DryHalt
        } else {
            ShutdownType::Invalid
        }
    }

    proof fn lemma_token_parses(self) {
        reveal_strlit("poweroff");
        reveal_strlit("dry-poweroff");
        reveal_strlit("reboot");
        reveal_strlit("dry-reboot");
        reveal_strlit("halt");
        reveal_strlit("dry-halt");
        if let Some(t) = self.spec_token() {
            lemma_trimmed_unchanged(t);
        }
    }

    proof fn lemma_parse_inverse(t: Seq<char>) {
    }

    fn parse_trimmed(t: &str) -> (r: Self) {
        if same_text(t, "poweroff") {
            ShutdownType::PowerOff
        } else if same_text(t, "dry-poweroff") {
            ShutdownType::DryPowerOff
        } else if same_text(t, "reboot") {
            ShutdownType::Reboot
        } else if same_text(t, "dry-reboot") {
            ShutdownType::DryReboot
        } else if same_text(t, "halt") {
            ShutdownType::Halt
        } else if same_text(t, "dry-halt") {
            ShutdownType::DryHalt
        } else {
            ShutdownType::Invalid
        }
    }

    fn token(&self) -> (r: Option<&'static str>) {
        match self {
            ShutdownType::PowerOff => Some("poweroff"),
            ShutdownType::DryPowerOff => Some("dry-poweroff"),
            ShutdownType::Reboot => Some("reboot"),
            ShutdownType::DryReboot => Some("dry-reboot"),
            ShutdownType::Halt => Some("halt"),
            ShutdownType::DryHalt => Some("dry-halt"),
            ShutdownType::Invalid => None,
        }
    }
}

/// The pieces of `s` between colons, from position `start` on, where no
/// colon stands between `start` and `i`.
pub open spec fn pieces_from(s: Seq<char>, start: int, i: int) -> Seq<Seq<char>>
    decreases s.len() - i,
{
    if i >= s.len() {
        seq![s.subrange(start, s.len() as int)]
    } else if s[i] == ':' {
        seq![s.subrange(start, i)] + pieces_from(s, i + 1, i + 1)
    } else {
        pieces_from(s, start, i + 1)
    }
}

/// The pieces of `s` between colons, empty ones included.
pub open spec fn colon_pieces(s: Seq<char>) -> Seq<Seq<char>> {
    pieces_from(s, 0, 0)
}

/// The inhibit types that a list of pieces names: each non-empty piece
/// decodes as one token, empty pieces are dropped.
pub open spec fn decode_pieces(ps: Seq<Seq<char>>) -> Seq<InhibitType>
    decreases ps.len(),
{
    if ps.len() == 0 {
        Seq::empty()
    } else {
        decode_piece(ps[0]) + decode_pieces(ps.drop_first())
    }
}

pub open spec fn decode_piece(p: Seq<char>) -> Seq<InhibitType> {
    if p.len() == 0 {
        Seq::empty()
    } else {
        seq![spec_from_token::<InhibitType>(p)]
    }
}

/// What a colon-separated list text decodes to.
pub open spec fn spec_parse_types(s: Seq<char>) -> Seq<InhibitType> {
    decode_pieces(colon_pieces(s))
}

/// The token of an inhibit type, empty for `Invalid`.
pub open spec fn type_token(t: InhibitType) -> Seq<char> {
    match t.spec_token() {
        Some(k) => k,
        None => Seq::empty(),
    }
}

/// The tokens of a list joined by colons.
pub open spec fn join_types(ts: Seq<InhibitType>) -> Seq<char>
    decreases ts.len(),
{
    if ts.len() == 0 {
        Seq::empty()
    } else if ts.len() == 1 {
        type_token(ts[0])
    } else {
        type_token(ts[0]) + seq![':'] + join_types(ts.drop_first())
    }
}

/// Every item of the list has a token.
pub open spec fn all_encodable(ts: Seq<InhibitType>) -> bool {
    forall|i: int| 0 <= i < ts.len() ==> ts[i] != InhibitType::Invalid
}

proof fn lemma_decode_pieces_front(p: Seq<char>, rest: Seq<Seq<char>>)
    ensures
        decode_pieces(seq![p] + rest) == decode_piece(p) + decode_pieces(rest),
{
    let ps = seq![p] + rest;
    assert(ps[0] == p);
    assert(ps.drop_first() =~= rest);
}

/// Scanning past colon-free text does not change the pieces.
proof fn lemma_pieces_skip(s: Seq<char>, start: int, i: int, k: int)
    requires
        0 <= start <= i <= k <= s.len(),
        forall|j: int| i <= j < k ==> s[j] != ':',
    ensures
        pieces_from(s, start, i) == pieces_from(s, start, k),
    decreases k - i,
{
    if i < k {
        lemma_pieces_skip(s, start, i + 1, k);
    }
}

/// The pieces of `p + b` past the end of `p` are the pieces of `b`.
proof fn lemma_pieces_shift(p: Seq<char>, b: Seq<char>, start: int, i: int)
    requires
        0 <= start <= i <= b.len(),
    ensures
        pieces_from(p + b, p.len() + start, p.len() + i) == pieces_from(b, start, i),
    decreases b.len() - i,
{
    let s = p + b;
    if i >= b.len() {
        assert(s.subrange(p.len() + start, s.len() as int) =~= b.subrange(start, b.len() as int));
    } else {
        assert(s[p.len() + i] == b[i]);
        if b[i] == ':' {
            assert(s.subrange(p.len() + start, p.len() + i) =~= b.subrange(start, i));
            lemma_pieces_shift(p, b, i + 1, i + 1);
        } else {
            lemma_pieces_shift(p, b, start, i + 1);
        }
    }
}

/// Every token of an inhibit type is non-empty and free of colons.
proof fn lemma_type_token_plain(t: InhibitType)
    requires
        t != InhibitType::Invalid,
    ensures
        type_token(t).len() > 0,
        forall|j: int| 0 <= j < type_token(t).len() ==> type_token(t)[j] != ':',
{
    reveal_strlit("shutdown");
    reveal_strlit("sleep");
    reveal_strlit("idle");
    reveal_strlit("handle-power-key");
    reveal_strlit("handle-suspend-key");
    reveal_strlit("handle-hibernate-key");
    reveal_strlit("handle-lid-switch");
}

/// A colon-free text is one piece.
proof fn lemma_single_piece(t: Seq<char>)
    requires
        forall|j: int| 0 <= j < t.len() ==> t[j] != ':',
    ensures
        colon_pieces(t) == seq![t],
{
    lemma_pieces_skip(t, 0, 0, t.len() as int);
    assert(t.subrange(0, t.len() as int) =~= t);
}

/// Decoding the joined tokens of a list of inhibit types, none of them
/// `Invalid`, gives the same list in the same order.
pub proof fn law_inhibit_types_round_trip(ts: Seq<InhibitType>)
    requires
        all_encodable(ts),
    ensures
        spec_parse_types(join_types(ts)) == ts,
    decreases ts.len(),
{
    if ts.len() == 0 {
        lemma_single_piece(Seq::empty());
        lemma_decode_pieces_front(Seq::empty(), Seq::empty());
        assert(seq![Seq::<char>::empty()] + Seq::<Seq<char>>::empty() =~= seq![Seq::<char>::empty()]);
        assert(decode_pieces(Seq::<Seq<char>>::empty()) =~= Seq::<InhibitType>::empty());
        assert(spec_parse_types(join_types(ts)) =~= ts);
    } else {
        let tok = type_token(ts[0]);
        lemma_type_token_plain(ts[0]);
        ts[0].lemma_token_parses();
        assert(decode_piece(tok) == seq![ts[0]]);
        if ts.len() == 1 {
            lemma_single_piece(tok);
            lemma_decode_pieces_front(tok, Seq::empty());
            assert(seq![tok] + Seq::<Seq<char>>::empty() =~= seq![tok]);
            assert(decode_pieces(Seq::<Seq<char>>::empty()) =~= Seq::<InhibitType>::empty());
            assert(spec_parse_types(join_types(ts)) =~= ts);
        } else {
            let rest = ts.drop_first();
            assert(all_encodable(rest)) by {
                assert forall|i: int| 0 <= i < rest.len() implies rest[i] != InhibitType::Invalid by {
                    assert(rest[i] == ts[i + 1]);
                }
            }
            law_inhibit_types_round_trip(rest);
            let j = join_types(rest);
            let head = tok + seq![':'];
            let s = join_types(ts);
            assert(s == head + j);
            assert(s[tok.len() as int] == ':');
            assert forall|k: int| 0 <= k < tok.len() implies s[k] != ':' by {
                assert(s[k] == tok[k]);
            }
            lemma_pieces_skip(s, 0, 0, tok.len() as int);
            assert(s.subrange(0, tok.len() as int) =~= tok);
            lemma_pieces_shift(head, j, 0, 0);
            assert(colon_pieces(s) == seq![tok] + colon_pieces(j));
            lemma_decode_pieces_front(tok, colon_pieces(j));
            assert(spec_parse_types(s) =~= seq![ts[0]] + rest);
            assert(seq![ts[0]] + rest =~= ts);
        }
    }
}

/// A list of inhibit types, carried on the wire as one colon-separated text.
#[derive(Debug, Clone, PartialEq)]
pub struct InhibitTypes(Vec<InhibitType>);

impl View for InhibitTypes {
    type V = Seq<InhibitType>;

    closed spec fn view(&self) -> Seq<InhibitType> {
        self.0@
    }
}

impl InhibitTypes {
    pub fn new(types: Vec<InhibitType>) -> (r: InhibitTypes)
        ensures
            r@ == types@,
    {
        InhibitTypes(types)
    }

    pub fn types(&self) -> (r: &Vec<InhibitType>)
        ensures
            r@ == self@,
    {
        &self.0
    }

    /// Splits a wire text on `:` and decodes each non-empty piece as a token.
    pub fn from_wire_text(s: &str) -> (r: InhibitTypes)
        ensures
            r@ == spec_parse_types(s@),
    {
        let n = s.unicode_len();
        let mut out: Vec<InhibitType> = Vec::new();
        let mut start: usize = 0;
        let mut i: usize = 0;
        while i < n
            invariant
                n == s@.len(),
                start <= i <= n,
                out@ + decode_pieces(pieces_from(s@, start as int, i as int)) == spec_parse_types(
                    s@,
                ),
            decreases n - i,
        {
            if s.get_char(i) == ':' {
                let piece = s.substring_char(start, i);
                let ghost before = out@;
                proof {
                    lemma_decode_pieces_front(piece@, pieces_from(s@, i as int + 1, i as int + 1));
                }
                if piece.unicode_len() > 0 {
                    out.push(from_token(piece));
                }
                assert(out@ == before + decode_piece(piece@));
                assert(before + (decode_piece(piece@) + decode_pieces(
                    pieces_from(s@, i as int + 1, i as int + 1),
                )) =~= out@ + decode_pieces(pieces_from(s@, i as int + 1, i as int + 1)));
                start = i + 1;
            }
            i += 1;
        }
        let piece = s.substring_char(start, n);
        let ghost before = out@;
        proof {
            lemma_decode_pieces_front(piece@, Seq::empty());
            assert(seq![piece@] + Seq::<Seq<char>>::empty() =~= seq![piece@]);
            assert(decode_pieces(Seq::<Seq<char>>::empty()) =~= Seq::<InhibitType>::empty());
        }
        if piece.unicode_len() > 0 {
            out.push(from_token(piece));
        }
        assert(out@ =~= before + decode_piece(piece@));
        InhibitTypes(out)
    }

    /// Joins the tokens with `:`; none when an item is `Invalid`.
    pub fn to_wire_text(&self) -> (r: Option<String>)
        ensures
            r is Some <==> all_encodable(self@),
            r matches Some(t) ==> t@ == join_types(self@),
    {
        let n = self.0.len();
        let mut k: usize = 0;
        while k < n
            invariant
                n == self@.len(),
                k <= n,
                forall|j: int| 0 <= j < k ==> self@[j] != InhibitType::Invalid,
            decreases n - k,
        {
            if self.0[k] == InhibitType::Invalid {
                return None;
            }
            k += 1;
        }
        if n == 0 {
            return Some(String::new());
        }
        let mut i: usize = n - 1;
        let mut acc = match self.0[i].token() {
            Some(t) => String::from_str(t),
            None => String::new(),
        };
        assert(self@.subrange(i as int, n as int).len() == 1);
        while i > 0
            invariant
                n == self@.len(),
                i < n,
                all_encodable(self@),
                acc@ == join_types(self@.subrange(i as int, n as int)),
            decreases i,
        {
            let ghost tail = self@.subrange(i as int, n as int);
            i -= 1;
            let head = match self.0[i].token() {
                Some(t) => String::from_str(t),
                None => String::new(),
            };
            let joined = head.concat(":").concat(acc.as_str());
            proof {
                reveal_strlit(":");
                let whole = self@.subrange(i as int, n as int);
                assert(whole.drop_first() =~= tail);
                assert(whole[0] == self@[i as int]);
            }
            acc = joined;
        }
        assert(self@.subrange(0, n as int) =~= self@);
        Some(acc)
    }
}

/// A lock that holds back shutdown, sleep, idle or key handling, as the
/// manager lists it.
#[derive(Debug, Clone, PartialEq)]
pub struct Inhibitor {
    what: InhibitTypes,
    who: String,
    why: String,
    mode: Mode,
    user_id: u32,
    process_id: u32,
}

impl View for Inhibitor {
    /// What is inhibited, by whom, why, the mode, the user id and the process id.
    type V = (Seq<InhibitType>, Seq<char>, Seq<char>, Mode, u32, u32);

    closed spec fn view(&self) -> Self::V {
        (self.what@, self.who@, self.why@, self.mode, self.user_id, self.process_id)
    }
}

impl Inhibitor {
    pub fn new(
        what: InhibitTypes,
        who: String,
        why: String,
        mode: Mode,
        user_id: u32,
        process_id: u32,
    ) -> (r: Inhibitor)
        ensures
            r@ == (what@, who@, why@, mode, user_id, process_id),
    {
        Inhibitor { what, who, why, mode, user_id, process_id }
    }

    /// What this lock is inhibiting.
    pub fn what(&self) -> (r: &InhibitTypes)
        ensures
            r@ == self@.0,
    {
        &self.what
    }

    /// The name of what holds the lock, for example an application name.
    pub fn who(&self) -> (r: &str)
        ensures
            r@ == self@.1,
    {
        self.who.as_str()
    }

    /// Why the lock was taken.
    pub fn why(&self) -> (r: &str)
        ensures
            r@ == self@.2,
    {
        self.why.as_str()
    }

    pub fn mode(&self) -> (r: Mode)
        ensures
            r == self@.3,
    {
        self.mode
    }

    pub fn user_id(&self) -> (r: u32)
        ensures
            r == self@.4,
    {
        self.user_id
    }

    pub fn process_id(&self) -> (r: u32)
        ensures
            r == self@.5,
    {
        self.process_id
    }

    /// Encodes this lock as the structure `(what, who, why, mode, uid, pid)`;
    /// none when `what` holds `Invalid` or the mode is `Invalid`.
    pub fn to_wire(&self) -> (r: Option<WireValue>)
        ensures
            r is Some <==> all_encodable(self@.0) && self@.3 != Mode::Invalid,
            r matches Some(w) ==> Self::spec_decode(w) == Ok::<
                (Seq<InhibitType>, Seq<char>, Seq<char>, Mode, u32, u32),
                DecodeError,
            >(self@),
    {
        let what = match self.what.to_wire_text() {
            Some(t) => t,
            None => return None,
        };
        let mode = match self.mode.token() {
            Some(t) => String::from_str(t),
            None => return None,
        };
        proof {
            law_inhibit_types_round_trip(self.what@);
            self.mode.lemma_token_parses();
        }
        let mut fs: Vec<WireValue> = Vec::new();
        fs.push(WireValue::Str(what));
        fs.push(WireValue::Str(self.who.clone()));
        fs.push(WireValue::Str(self.why.clone()));
        fs.push(WireValue::Str(mode));
        fs.push(WireValue::U32(self.user_id));
        fs.push(WireValue::U32(self.process_id));
        Some(WireValue::Struct(fs))
    }
}

impl WireRecord for Inhibitor {
    open spec fn spec_decode(w: WireValue) -> Result<Self::V, DecodeError> {
        match w {
            WireValue::Struct(fs) => if fs@.len() != 6 {
                Err(arity_error(6, fs@.len() as int))
            } else if str_of(fs@[0]) is None {
                Err(field_error(0))
            } else if str_of(fs@[1]) is None {
                Err(field_error(1))
            } else if str_of(fs@[2]) is None {
                Err(field_error(2))
            } else if str_of(fs@[3]) is None {
                Err(field_error(3))
            } else if u32_of(fs@[4]) is None {
                Err(field_error(4))
            } else if u32_of(fs@[5]) is None {
                Err(field_error(5))
            } else {
                Ok(
                    (
                        spec_parse_types(str_of(fs@[0])->Some_0),
                        str_of(fs@[1])->Some_0,
                        str_of(fs@[2])->Some_0,
                        spec_from_token::<Mode>(str_of(fs@[3])->Some_0),
                        u32_of(fs@[4])->Some_0,
                        u32_of(fs@[5])->Some_0,
                    ),
                )
            },
            _ => Err(DecodeError::TypeMismatch),
        }
    }

    fn decode(w: &WireValue) -> (r: Result<Self, DecodeError>) {
        let fs = match expect_fields(w, 6) {
            Ok(fs) => fs,
            Err(e) => return Err(e),
        };
        let what = match str_field(fs, 0) {
            Ok(x) => InhibitTypes::from_wire_text(x.as_str()),
            Err(e) => return Err(e),
        };
        let who = match str_field(fs, 1) {
            Ok(x) => x,
            Err(e) => return Err(e),
        };
        let why = match str_field(fs, 2) {
            Ok(x) => x,
            Err(e) => return Err(e),
        };
        let mode = match str_field(fs, 3) {
            Ok(x) => from_token::<Mode>(x.as_str()),
            Err(e) => return Err(e),
        };
        let user_id = match u32_field(fs, 4) {
            Ok(x) => x,
            Err(e) => return Err(e),
        };
        let process_id = match u32_field(fs, 5) {
            Ok(x) => x,
            Err(e) => return Err(e),
        };
        Ok(Inhibitor { what, who, why, mode, user_id, process_id })
    }
}

/// A pending shutdown: its kind as the manager names it, and when it is due,
/// in microseconds.
#[derive(Debug, Clone, PartialEq)]
pub struct ScheduledShutdown {
    id: String,
    time: u64,
}

impl View for ScheduledShutdown {
    /// The kind's text and the time in microseconds.
    type V = (Seq<char>, u64);

    closed spec fn view(&self) -> (Seq<char>, u64) {
        (self.id@, self.time)
    }
}

impl ScheduledShutdown {
    /// The kind of shutdown, as its text.
    pub fn id(&self) -> (r: &str)
        ensures
            r@ == self@.0,
    {
        self.id.as_str()
    }

    /// The kind of shutdown, decoded as a token.
    pub fn kind(&self) -> (r: ShutdownType)
        ensures
            r == spec_from_token::<ShutdownType>(self@.0),
    {
        from_token(self.id.as_str())
    }

    /// When the shutdown is due, in microseconds.
    pub fn time(&self) -> (r: u64)
        ensures
            r == self@.1,
    {
        self.time
    }

    /// Encodes this record as the structure `(id, time)`.
    pub fn to_wire(&self) -> (w: WireValue)
        ensures
            Self::spec_decode(w) == Ok::<(Seq<char>, u64), DecodeError>(self@),
    {
        let mut fs: Vec<WireValue> = Vec::new();
        fs.push(WireValue::Str(self.id.clone()));
        fs.push(WireValue::U64(self.time));
        WireValue::Struct(fs)
    }
}

impl WireRecord for ScheduledShutdown {
    open spec fn spec_decode(w: WireValue) -> Result<(Seq<char>, u64), DecodeError> {
        match w {
            WireValue::Struct(fs) => if fs@.len() != 2 {
                Err(arity_error(2, fs@.len() as int))
            } else if str_of(fs@[0]) is None {
                Err(field_error(0))
            } else if u64_of(fs@[1]) is None {
                Err(field_error(1))
            } else {
                Ok((str_of(fs@[0])->Some_0, u64_of(fs@[1])->Some_0))
            },
            _ => Err(DecodeError::TypeMismatch),
        }
    }

    fn decode(w: &WireValue) -> (r: Result<Self, DecodeError>) {
        let fs = match expect_fields(w, 2) {
            Ok(fs) => fs,
            Err(e) => return Err(e),
        };
        let id = match str_field(fs, 0) {
            Ok(x) => x,
            Err(e) => return Err(e),
        };
        let time = match u64_field(fs, 1) {
            Ok(x) => x,
            Err(e) => return Err(e),
        };
        Ok(ScheduledShutdown { id, time })
    }
}

} // verus!
