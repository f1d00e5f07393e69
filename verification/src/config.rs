//! Model configuration: per-role output profiles for the mixer and the AUX
//! channel map that drives CH5..CH16 from switches and buttons.

use vstd::prelude::*;
use vstd::string::StrSliceExecFns;

use crate::ui::text::{decimal, digit_char, push_decimal, upper_ascii};

verus! {

/// The first AUX output channel (1-based channel number).
pub const AUX_FIRST_CHANNEL: u8 = 5;

/// The last AUX output channel (1-based channel number).
pub const AUX_LAST_CHANNEL: u8 = 16;

/// Number of AUX output channels, CH5..CH16.
pub const AUX_CHANNEL_COUNT: usize = 12;

/// A physical input that can drive an AUX output channel.
#[derive(Debug, Clone, Copy, PartialEq, Eq, Structural)]
pub enum AuxSource {
    /// No source: the channel stays at 0.
    Unmapped,
    /// A three-position switch (`SA`..`SD`), index into `switch_3pos`.
    Switch3Pos(u8),
    /// A two-position switch (`S1`, `S2`), index into `switch_2pos`.
    Switch2Pos(u8),
    /// A button bit of the `buttons` word (`B0`..`B15`).
    Button(u8),
}

/// One entry of the AUX map: output channel number, source, and inversion.
#[derive(Debug, Clone, Copy, PartialEq, Eq, Structural)]
pub struct AuxChannelMapping {
    pub channel: u8,
    pub source: AuxSource,
    pub inverted: bool,
}

/// The AUX map as stored in a model: any number of entries, possibly with
/// duplicates or out-of-range channels.
#[derive(Debug, Clone, PartialEq, Eq)]
pub struct AuxMapping {
    pub channels: Vec<AuxChannelMapping>,
}

/// The function a stick or switch output plays in a model.
#[derive(Debug, Clone, Copy, PartialEq, Eq, Structural)]
pub enum ControlRole {
    Thrust,
    Direction,
    Aileron,
    Elevator,
    Arm,
    FlightMode,
    Beeper,
    Turtle,
    Prearm,
    GpsRescue,
}

/// Output limits of one role, in the model's -1000..1000 scale
/// (`subtrim`, `min`, `max`), plus reversal.
#[derive(Debug, Clone, Copy, PartialEq, Eq, Structural)]
pub struct OutputLimits {
    pub subtrim: i16,
    pub min: i16,
    pub max: i16,
    pub reversed: bool,
}

/// The output profile of one role: weight in percent, offset in the
/// -1000..1000 scale, and limits.
#[derive(Debug, Clone, Copy, PartialEq, Eq, Structural)]
pub struct MixerOutput {
    pub role: ControlRole,
    pub weight: i16,
    pub offset: i16,
    pub limits: OutputLimits,
}

/// The mixer section of a model.
#[derive(Debug, Clone, PartialEq, Eq)]
pub struct MixerConfig {
    pub outputs: Vec<MixerOutput>,
}

/// A model: mixer output profiles and the AUX channel map.
#[derive(Debug, Clone, PartialEq, Eq)]
pub struct ModelConfig {
    pub mixer: MixerConfig,
    pub aux_mapping: AuxMapping,
}

/// The default source of AUX slot `k` (channel `k + 5`):
/// CH5 = S1, CH6..CH9 = SA..SD, CH10 = S2, CH11..CH16 = none.
pub open spec fn default_aux_source(k: int) -> AuxSource {
    if k == 0 {
        AuxSource::Switch2Pos(0)
    } else if 1 <= k <= 4 {
        AuxSource::Switch3Pos((k - 1) as u8)
    } else if k == 5 {
        AuxSource::Switch2Pos(1)
    } else {
        AuxSource::Unmapped
    }
}

/// The default AUX map, one entry per channel CH5..CH16, none inverted.
pub open spec fn default_aux_channels() -> Seq<AuxChannelMapping> {
    Seq::new(
        AUX_CHANNEL_COUNT as nat,
        |k: int|
            AuxChannelMapping {
                channel: (k + AUX_FIRST_CHANNEL) as u8,
                source: default_aux_source(k),
                inverted: false,
            },
    )
}

/// Whether `channel` is one of CH5..CH16.
pub open spec fn is_aux_channel(channel: u8) -> bool {
    AUX_FIRST_CHANNEL <= channel <= AUX_LAST_CHANNEL
}

/// The normalized AUX map of `entries`: start from the defaults, then let
/// every entry with an AUX channel replace its slot, in order, so that the
/// last entry for a channel wins and entries for other channels are ignored.
pub open spec fn normalize_aux(entries: Seq<AuxChannelMapping>) -> Seq<AuxChannelMapping>
    decreases entries.len(),
{
    if entries.len() == 0 {
        default_aux_channels()
    } else {
        let prev = normalize_aux(entries.drop_last());
        let m = entries.last();
        if is_aux_channel(m.channel) {
            prev.update(m.channel - AUX_FIRST_CHANNEL, m)
        } else {
            prev
        }
    }
}

/// A source that the mixer can evaluate without a shift overflow.
pub open spec fn source_well_formed(source: AuxSource) -> bool {
    match source {
        AuxSource::Button(index) => index < 32,
        _ => true,
    }
}

/// Every entry of the AUX map has a well-formed source.
pub open spec fn aux_entries_well_formed(entries: Seq<AuxChannelMapping>) -> bool {
    forall|i: int| 0 <= i < entries.len() ==> source_well_formed(#[trigger] entries[i].source)
}

/// The normalized map has one entry per AUX channel, in channel order.
pub proof fn lemma_normalize_aux_shape(entries: Seq<AuxChannelMapping>)
    ensures
        normalize_aux(entries).len() == AUX_CHANNEL_COUNT,
        forall|k: int|
            0 <= k < AUX_CHANNEL_COUNT ==> (#[trigger] normalize_aux(entries)[k]).channel == k
                + AUX_FIRST_CHANNEL,
    decreases entries.len(),
{
    if entries.len() > 0 {
        lemma_normalize_aux_shape(entries.drop_last());
    }
}

/// Sources of the normalized map come from the defaults or from the entries.
pub proof fn lemma_normalize_aux_well_formed(entries: Seq<AuxChannelMapping>)
    requires
        aux_entries_well_formed(entries),
    ensures
        forall|k: int|
            0 <= k < normalize_aux(entries).len() ==> source_well_formed(
                #[trigger] normalize_aux(entries)[k].source,
            ),
    decreases entries.len(),
{
    if entries.len() > 0 {
        let prefix = entries.drop_last();
        assert forall|i: int| 0 <= i < prefix.len() implies source_well_formed(
            #[trigger] prefix[i].source,
        ) by {
            assert(prefix[i] == entries[i]);
        }
        lemma_normalize_aux_well_formed(prefix);
        lemma_normalize_aux_shape(prefix);
        let m = entries.last();
        assert(source_well_formed(entries[entries.len() - 1].source));
        let prev = normalize_aux(prefix);
        assert forall|k: int| 0 <= k < normalize_aux(entries).len() implies source_well_formed(
            #[trigger] normalize_aux(entries)[k].source,
        ) by {
            if is_aux_channel(m.channel) && k == m.channel - AUX_FIRST_CHANNEL {
                assert(normalize_aux(entries)[k] == m);
            } else {
                assert(normalize_aux(entries)[k] == prev[k]);
            }
        }
    }
}

impl AuxMapping {
    /// The AUX map with exactly one entry for each of CH5..CH16, in channel
    /// order: defaults overridden by the stored entries, last entry winning.
    pub fn normalized_channels(&self) -> (res: Vec<AuxChannelMapping>)
        ensures
            res@ == normalize_aux(self.channels@),
    {
        let mut res: Vec<AuxChannelMapping> = Vec::new();
        let mut k: usize = 0;
        while k < AUX_CHANNEL_COUNT
            invariant
                k <= AUX_CHANNEL_COUNT,
                res@ == default_aux_channels().take(k as int),
            decreases AUX_CHANNEL_COUNT - k,
        {
            let source = if k == 0 {
                AuxSource::Switch2Pos(0)
            } else if k <= 4 {
                AuxSource::Switch3Pos((k - 1) as u8)
            } else if k == 5 {
                AuxSource::Switch2Pos(1)
            } else {
                AuxSource::Unmapped
            };
            res.push(AuxChannelMapping { channel: (k as u8) + AUX_FIRST_CHANNEL, source, inverted: false });
            proof {
                assert(res@ =~= default_aux_channels().take(k + 1));
            }
            k = k + 1;
        }
        proof {
            assert(default_aux_channels().take(AUX_CHANNEL_COUNT as int) =~= default_aux_channels());
        }
        let mut i: usize = 0;
        while i < self.channels.len()
            invariant
                i <= self.channels.len(),
                res@ == normalize_aux(self.channels@.take(i as int)),
            decreases self.channels.len() - i,
        {
            proof {
                lemma_normalize_aux_shape(self.channels@.take(i as int));
                assert(self.channels@.take(i + 1).drop_last() =~= self.channels@.take(i as int));
            }
            let m = self.channels[i];
            if AUX_FIRST_CHANNEL <= m.channel && m.channel <= AUX_LAST_CHANNEL {
                res.set((m.channel - AUX_FIRST_CHANNEL) as usize, m);
            }
            i = i + 1;
        }
        proof {
            assert(self.channels@.take(self.channels.len() as int) =~= self.channels@);
        }
        res
    }
}

impl Default for AuxMapping {
    /// The default AUX map, written out one entry per channel CH5..CH16.
    fn default() -> (res: Self)
        ensures
            res.channels@ == default_aux_channels(),
    {
        let empty = AuxMapping { channels: Vec::new() };
        let channels = empty.normalized_channels();
        proof {
            assert(empty.channels@ =~= Seq::<AuxChannelMapping>::empty());
        }
        AuxMapping { channels }
    }
}

/// The default profile of a role: weight 100 %, no offset, no subtrim, full
/// -1000..1000 range, not reversed. It leaves values in 0..=10000 unchanged.
pub open spec fn default_output(role: ControlRole) -> MixerOutput {
    MixerOutput {
        role,
        weight: 100i16,
        offset: 0i16,
        limits: OutputLimits { subtrim: 0i16, min: -1000i16, max: 1000i16, reversed: false },
    }
}

/// The roles in the order of the default model's outputs.
pub open spec fn default_roles() -> Seq<ControlRole> {
    seq![
        ControlRole::Thrust,
        ControlRole::Direction,
        ControlRole::Aileron,
        ControlRole::Elevator,
        ControlRole::Arm,
        ControlRole::FlightMode,
        ControlRole::Beeper,
        ControlRole::Turtle,
        ControlRole::Prearm,
        ControlRole::GpsRescue,
    ]
}

/// The default model's output profiles: the default profile of every role,
/// in the order of `default_roles`.
pub open spec fn default_outputs() -> Seq<MixerOutput> {
    default_roles().map_values(|r: ControlRole| default_output(r))
}

fn default_output_for(role: ControlRole) -> (res: MixerOutput)
    ensures
        res == default_output(role),
{
    MixerOutput {
        role,
        weight: 100,
        offset: 0,
        limits: OutputLimits { subtrim: 0, min: -1000, max: 1000, reversed: false },
    }
}

impl Default for ModelConfig {
    /// A model with the default profile for every role and the default AUX map.
    fn default() -> (res: Self)
        ensures
            res.mixer.outputs@ == default_outputs(),
            res.aux_mapping.channels@ == default_aux_channels(),
    {
        let mut outputs: Vec<MixerOutput> = Vec::new();
        outputs.push(default_output_for(ControlRole::Thrust));
        outputs.push(default_output_for(ControlRole::Direction));
        outputs.push(default_output_for(ControlRole::Aileron));
        outputs.push(default_output_for(ControlRole::Elevator));
        outputs.push(default_output_for(ControlRole::Arm));
        outputs.push(default_output_for(ControlRole::FlightMode));
        outputs.push(default_output_for(ControlRole::Beeper));
        outputs.push(default_output_for(ControlRole::Turtle));
        outputs.push(default_output_for(ControlRole::Prearm));
        outputs.push(default_output_for(ControlRole::GpsRescue));
        proof {
            assert(outputs@ =~= default_outputs());
        }
        ModelConfig { mixer: MixerConfig { outputs }, aux_mapping: AuxMapping::default() }
    }
}


// ---------------------------------------------------------------------------
// Source names
// ---------------------------------------------------------------------------

/// A source that exists on the radio: `SA`..`SD`, `S1`, `S2`, `B0`..`B15`,
/// or none.
pub open spec fn source_valid(source: AuxSource) -> bool {
    match source {
        AuxSource::Unmapped => true,
        AuxSource::Switch3Pos(i) => i < 4,
        AuxSource::Switch2Pos(i) => i < 2,
        AuxSource::Button(i) => i < 16,
    }
}

/// The letter of three-position switch `i`: `A`..`D`.
pub open spec fn switch3_letter(i: u8) -> char {
    if i == 0 {
        'A'
    } else if i == 1 {
        'B'
    } else if i == 2 {
        'C'
    } else {
        'D'
    }
}

/// The text `none`.
pub open spec fn none_text() -> Seq<char> {
    seq!['n', 'o', 'n', 'e']
}

/// The name of a source as the AUX map stores and shows it: `SA`..`SD`,
/// `S1`, `S2`, `B0`..`B15`, and `none` for no source or one that does not
/// exist on the radio.
pub open spec fn source_name(source: AuxSource) -> Seq<char> {
    match source {
        AuxSource::Unmapped => none_text(),
        AuxSource::Switch3Pos(i) => if i < 4 {
            seq!['S', switch3_letter(i)]
        } else {
            none_text()
        },
        AuxSource::Switch2Pos(i) => if i < 2 {
            seq!['S', digit_char((i + 1) as nat)]
        } else {
            none_text()
        },
        AuxSource::Button(i) => if i < 16 {
            seq!['B'] + decimal(i as nat)
        } else {
            none_text()
        },
    }
}

/// The source named by `text`: the empty text and `none` name no source;
/// `SA`..`SD`, `S1`, `S2` and `B0`..`B15` (no leading zero) name switches
/// and buttons; letters are case-sensitive; anything else names nothing.
pub open spec fn parse_source(t: Seq<char>) -> Option<AuxSource> {
    if t.len() == 0 || t == none_text() {
        Some(AuxSource::Unmapped)
    } else if t.len() == 2 && t[0] == 'S' && 65 <= (t[1] as int) <= 68 {
        Some(AuxSource::Switch3Pos((t[1] as int - 65) as u8))
    } else if t.len() == 2 && t[0] == 'S' && (t[1] == '1' || t[1] == '2') {
        Some(AuxSource::Switch2Pos((t[1] as int - 49) as u8))
    } else if t.len() == 2 && t[0] == 'B' && 48 <= (t[1] as int) <= 57 {
        Some(AuxSource::Button((t[1] as int - 48) as u8))
    } else if t.len() == 3 && t[0] == 'B' && t[1] == '1' && 48 <= (t[2] as int) <= 53 {
        Some(AuxSource::Button((t[2] as int - 38) as u8))
    } else {
        None
    }
}

proof fn lemma_digit_code(d: nat)
    requires
        d < 10,
    ensures
        digit_char(d) as int == 48 + d,
{
}

proof fn lemma_small_decimal(i: nat)
    requires
        i < 16,
    ensures
        i < 10 ==> decimal(i) == seq![digit_char(i)],
        i >= 10 ==> decimal(i) == seq!['1', digit_char((i - 10) as nat)],
{
    if i >= 10 {
        assert(decimal(i / 10) == seq![digit_char(1)]);
        assert(decimal(i) =~= seq!['1', digit_char((i - 10) as nat)]);
    }
}

/// Parsing the name of a source that exists gives the source back.
pub proof fn lemma_parse_source_name(source: AuxSource)
    requires
        source_valid(source),
    ensures
        parse_source(source_name(source)) == Some(source),
{
    match source {
        AuxSource::Unmapped => {},
        AuxSource::Switch3Pos(i) => {
            let t = source_name(source);
            assert(t[1] as int == 65 + i);
        },
        AuxSource::Switch2Pos(i) => {
            lemma_digit_code((i + 1) as nat);
        },
        AuxSource::Button(i) => {
            lemma_small_decimal(i as nat);
            let t = source_name(source);
            if i < 10 {
                lemma_digit_code(i as nat);
                assert(t =~= seq!['B', digit_char(i as nat)]);
            } else {
                lemma_digit_code((i - 10) as nat);
                assert(t =~= seq!['B', '1', digit_char((i - 10) as nat)]);
            }
        },
    }
}

/// Whatever parses names an existing source, and is that source's name
/// (or the empty text, which names no source).
pub proof fn lemma_parsed_source_is_named(t: Seq<char>)
    requires
        parse_source(t) is Some,
    ensures
        source_valid(parse_source(t)->0),
        source_name(parse_source(t)->0) == t || t.len() == 0,
{
    let s = parse_source(t)->0;
    if t.len() == 0 || t == none_text() {
    } else if t.len() == 2 && t[0] == 'S' && 65 <= (t[1] as int) <= 68 {
        let c = t[1];
        assert(switch3_letter((c as int - 65) as u8) == c) by {
            if c as int == 65 {
                assert(c == 'A');
            } else if c as int == 66 {
                assert(c == 'B');
            } else if c as int == 67 {
                assert(c == 'C');
            } else {
                assert(c == 'D');
            }
        }
        assert(source_name(s) =~= t);
    } else if t.len() == 2 && t[0] == 'S' && (t[1] == '1' || t[1] == '2') {
        assert(source_name(s) =~= t);
    } else if t.len() == 2 && t[0] == 'B' && 48 <= (t[1] as int) <= 57 {
        let i = (t[1] as int - 48) as nat;
        lemma_small_decimal(i);
        assert(source_name(s) =~= t);
    } else {
        let i = (t[2] as int - 38) as nat;
        assert(10 <= i < 16);
        lemma_small_decimal(i);
        let c = t[2];
        assert(digit_char((i - 10) as nat) == c) by {
            if c as int == 48 {
                assert(c == '0');
            } else if c as int == 49 {
                assert(c == '1');
            } else if c as int == 50 {
                assert(c == '2');
            } else if c as int == 51 {
                assert(c == '3');
            } else if c as int == 52 {
                assert(c == '4');
            } else {
                assert(c == '5');
            }
        }
        assert(s == AuxSource::Button(i as u8));
        assert(source_name(s) =~= seq!['B'] + decimal(i));
        assert(source_name(s) =~= t);
    }
}

fn switch3_name(i: u8) -> (res: &'static str)
    requires
        i < 4,
    ensures
        res@ == seq!['S', switch3_letter(i)],
{
    proof {
        reveal_strlit("SA");
        reveal_strlit("SB");
        reveal_strlit("SC");
        reveal_strlit("SD");
    }
    let res = match i {
        0 => "SA",
        1 => "SB",
        2 => "SC",
        _ => "SD",
    };
    assert(res@ =~= seq!['S', switch3_letter(i)]);
    res
}

impl AuxSource {
    /// The source's name: `SA`..`SD`, `S1`, `S2`, `B0`..`B15`, or `none`.
    pub fn name(&self) -> (res: String)
        ensures
            res@ == source_name(*self),
    {
        proof {
            reveal_strlit("none");
            reveal_strlit("S1");
            reveal_strlit("S2");
            reveal_strlit("B");
        }
        let none = "none";
        assert(none@ =~= none_text());
        match *self {
            AuxSource::Switch3Pos(i) => if i < 4 {
                switch3_name(i).to_owned()
            } else {
                none.to_owned()
            },
            AuxSource::Switch2Pos(i) => if i == 0 {
                let s = "S1";
                assert(s@ =~= seq!['S', digit_char(1)]);
                s.to_owned()
            } else if i == 1 {
                let s = "S2";
                assert(s@ =~= seq!['S', digit_char(2)]);
                s.to_owned()
            } else {
                none.to_owned()
            },
            AuxSource::Button(i) => if i < 16 {
                let mut s = "B".to_owned();
                push_decimal(&mut s, i as u32);
                s
            } else {
                none.to_owned()
            },
            AuxSource::Unmapped => none.to_owned(),
        }
    }

    /// The source's name in upper case, as the AUX map page shows it:
    /// `NONE` for no source, the name itself otherwise.
    pub fn display_name(&self) -> (res: String)
        ensures
            res@ == upper_ascii(source_name(*self)),
    {
        let name = self.name();
        let named = match *self {
            AuxSource::Unmapped => false,
            AuxSource::Switch3Pos(i) => i < 4,
            AuxSource::Switch2Pos(i) => i < 2,
            AuxSource::Button(i) => i < 16,
        };
        if named {
            proof {
                match *self {
                    AuxSource::Button(i) => {
                        lemma_small_decimal(i as nat);
                    },
                    _ => {},
                }
                assert(upper_ascii(source_name(*self)) =~= source_name(*self));
            }
            name
        } else {
            proof {
                reveal_strlit("NONE");
            }
            let upper = "NONE";
            assert(upper@ =~= upper_ascii(none_text()));
            upper.to_owned()
        }
    }

    /// The source named by `text` (see `parse_source`), if any.
    pub fn parse_name(text: &str) -> (res: Option<AuxSource>)
        ensures
            res == parse_source(text@),
    {
        let n = text.unicode_len();
        if n == 0 {
            return Some(AuxSource::Unmapped);
        }
        let c0 = text.get_char(0);
        if n == 4 {
            if c0 == 'n' && text.get_char(1) == 'o' && text.get_char(2) == 'n' && text.get_char(3)
                == 'e' {
                assert(text@ =~= none_text());
                return Some(AuxSource::Unmapped);
            }
            return None;
        }
        if n == 2 {
            let c1 = text.get_char(1);
            let code = c1 as u32;
            if c0 == 'S' {
                if 65 <= code && code <= 68 {
                    return Some(AuxSource::Switch3Pos((code - 65) as u8));
                }
                if c1 == '1' || c1 == '2' {
                    return Some(AuxSource::Switch2Pos((code - 49) as u8));
                }
                return None;
            }
            if c0 == 'B' && 48 <= code && code <= 57 {
                return Some(AuxSource::Button((code - 48) as u8));
            }
            return None;
        }
        if n == 3 && c0 == 'B' && text.get_char(1) == '1' {
            let code = text.get_char(2) as u32;
            if 48 <= code && code <= 53 {
                return Some(AuxSource::Button((code - 38) as u8));
            }
        }
        None
    }
}

// ---------------------------------------------------------------------------
// Editing the AUX map
// ---------------------------------------------------------------------------

/// The entries form a complete AUX map: one entry per channel CH5..CH16,
/// in channel order.
pub open spec fn is_full_aux_map(entries: Seq<AuxChannelMapping>) -> bool {
    &&& entries.len() == AUX_CHANNEL_COUNT
    &&& forall|k: int|
        0 <= k < AUX_CHANNEL_COUNT ==> (#[trigger] entries[k]).channel == k + AUX_FIRST_CHANNEL
}

proof fn lemma_normalize_full_prefix(entries: Seq<AuxChannelMapping>, i: int)
    requires
        is_full_aux_map(entries),
        0 <= i <= AUX_CHANNEL_COUNT,
    ensures
        normalize_aux(entries.take(i)) == entries.take(i) + default_aux_channels().skip(i),
    decreases i,
{
    if i == 0 {
        assert(entries.take(0) =~= Seq::<AuxChannelMapping>::empty());
        assert(default_aux_channels().skip(0) =~= default_aux_channels());
        assert(entries.take(0) + default_aux_channels().skip(0) =~= default_aux_channels());
    } else {
        lemma_normalize_full_prefix(entries, i - 1);
        assert(entries.take(i).drop_last() =~= entries.take(i - 1));
        assert(entries.take(i).last() == entries[i - 1]);
        assert(normalize_aux(entries.take(i)) =~= entries.take(i) + default_aux_channels().skip(i));
    }
}

/// Normalizing a complete AUX map leaves it as it is.
pub proof fn lemma_normalize_full_map(entries: Seq<AuxChannelMapping>)
    requires
        is_full_aux_map(entries),
    ensures
        normalize_aux(entries) == entries,
{
    lemma_normalize_full_prefix(entries, AUX_CHANNEL_COUNT as int);
    assert(entries.take(AUX_CHANNEL_COUNT as int) =~= entries);
    assert(entries + default_aux_channels().skip(AUX_CHANNEL_COUNT as int) =~= entries);
}

impl AuxMapping {
    /// Sets the source of one AUX channel, not inverted, and stores the map
    /// as a complete list of CH5..CH16 (the normalized map).
    pub fn set_source(&mut self, channel: u8, source: AuxSource)
        requires
            is_aux_channel(channel),
        ensures
            final(self).channels@ == normalize_aux(old(self).channels@).update(
                channel - AUX_FIRST_CHANNEL,
                AuxChannelMapping { channel, source, inverted: false },
            ),
    {
        let mut channels = self.normalized_channels();
        proof {
            lemma_normalize_aux_shape(self.channels@);
        }
        let index = (channel - AUX_FIRST_CHANNEL) as usize;
        channels.set(index, AuxChannelMapping { channel, source, inverted: false });
        self.channels = channels;
    }
}

/// After setting a channel's source, the normalized map has that source,
/// not inverted, on that channel and keeps every other channel's entry.
pub proof fn lemma_set_source_normalized(entries: Seq<AuxChannelMapping>, channel: u8, source: AuxSource)
    requires
        is_aux_channel(channel),
    ensures
        normalize_aux(
            normalize_aux(entries).update(
                channel - AUX_FIRST_CHANNEL,
                AuxChannelMapping { channel, source, inverted: false },
            ),
        )[channel - AUX_FIRST_CHANNEL] == (AuxChannelMapping { channel, source, inverted: false }),
        forall|k: int|
            0 <= k < AUX_CHANNEL_COUNT && k != channel - AUX_FIRST_CHANNEL ==> #[trigger] normalize_aux(
                normalize_aux(entries).update(
                    channel - AUX_FIRST_CHANNEL,
                    AuxChannelMapping { channel, source, inverted: false },
                ),
            )[k] == normalize_aux(entries)[k],
{
    lemma_normalize_aux_shape(entries);
    let updated = normalize_aux(entries).update(
        channel - AUX_FIRST_CHANNEL,
        AuxChannelMapping { channel, source, inverted: false },
    );
    assert(is_full_aux_map(updated));
    lemma_normalize_full_map(updated);
}


/// A stored AUX map entry whose source is given by name: the entry when the
/// name names a source (see `parse_source`), nothing otherwise, so that
/// normalization only sees valid entries.
pub fn aux_entry_from_name(channel: u8, source: &str, inverted: bool) -> (res: Option<
    AuxChannelMapping,
>)
    ensures
        res == (match parse_source(source@) {
            Some(s) => Some(AuxChannelMapping { channel, source: s, inverted }),
            None => None,
        }),
{
    match AuxSource::parse_name(source) {
        Some(s) => Some(AuxChannelMapping { channel, source: s, inverted }),
        None => None,
    }
}

} // verus!
