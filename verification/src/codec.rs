//! Outbound wire codec.
//!
//! Every command sent to a backend node is one JSON text frame: an object
//! with a literal `op` field, the guild id as a decimal string under
//! `guildId`, and operation-specific fields, keys in alphabetical order.
//! Each frame layout is pinned down by a spec function over character
//! sequences, and the encoder is proved to produce exactly that sequence.

use vstd::prelude::*;
use crate::text::{
    char_of_digit, dec_digits, digit_char, json_string, push_char, push_dec_u64,
    push_json_string,
};

verus! {

/// Inner object of a `voiceUpdate` frame: the server half of the voice
/// handshake together with the guild id rendered as a decimal string.
pub struct Event {
    pub token: String,
    pub endpoint: String,
    pub guild_id: String,
}

/// Payload of a `play` frame.
pub struct Play {
    pub track: String,
    pub no_replace: bool,
    pub start_time: u64,
    pub end_time: Option<u64>,
}

/// Payload of a `voiceUpdate` frame.
pub struct VoiceUpdate {
    pub session_id: String,
    pub event: Event,
}

/// Payload of a `volume` frame.
pub struct Volume {
    pub volume: u16,
}

/// Payload of a `seek` frame.
pub struct Seek {
    pub position: u64,
}

/// Payload of a `pause` frame.
pub struct Pause {
    pub pause: bool,
}

/// One equalizer band. The gain is carried in thousandths, so a gain of
/// -0.25 is `-250`; the codec renders it with exactly three decimal places.
#[derive(Clone, Copy, PartialEq, Eq, Structural, Debug)]
pub struct Band {
    pub band: u8,
    pub gain_milli: i32,
}

/// Payload of an `equalizer` frame.
pub struct Equalize {
    pub bands: Vec<Band>,
}

/// The outbound operations of the wire protocol, one variant per `op` value.
pub enum Codes {
    Destroy,
    Equalize(Equalize),
    Pause(Pause),
    Play(Play),
    Seek(Seek),
    Stop,
    VoiceUpdate(VoiceUpdate),
    Volume(Volume),
}

/// The JSON rendering of a boolean.
pub open spec fn bool_chars(b: bool) -> Seq<char> {
    if b {
        "true"@
    } else {
        "false"@
    }
}

/// The rendering of a gain in thousandths as a signed decimal with exactly
/// three digits after the point: -250 becomes `-0.250`.
pub open spec fn milli_chars(m: int) -> Seq<char> {
    if m < 0 {
        seq!['-'] + milli_mag_chars(-m)
    } else {
        milli_mag_chars(m)
    }
}

/// The rendering of a non-negative number of thousandths.
pub open spec fn milli_mag_chars(m: int) -> Seq<char> {
    dec_digits((m / 1000) as nat) + seq![
        '.',
        digit_char((m / 100) % 10),
        digit_char((m / 10) % 10),
        digit_char(m % 10),
    ]
}

/// The guild id as a quoted decimal string.
pub open spec fn guild_chars(g: u64) -> Seq<char> {
    "\""@ + dec_digits(g as nat) + "\""@
}

/// One band object inside an `equalizer` frame.
pub open spec fn band_chars(b: Band) -> Seq<char> {
    "{\"band\":"@ + dec_digits(b.band as nat) + ",\"gain\":"@ + milli_chars(b.gain_milli as int)
        + "}"@
}

/// A comma-separated list of band objects.
pub open spec fn bands_chars(bs: Seq<Band>) -> Seq<char>
    decreases bs.len(),
{
    if bs.len() == 0 {
        Seq::<char>::empty()
    } else if bs.len() == 1 {
        band_chars(bs[0])
    } else {
        band_chars(bs[0]) + seq![','] + bands_chars(bs.drop_first())
    }
}

pub open spec fn destroy_frame(g: u64) -> Seq<char> {
    "{\"guildId\":"@ + guild_chars(g) + ",\"op\":\"destroy\"}"@
}

pub open spec fn stop_frame(g: u64) -> Seq<char> {
    "{\"guildId\":"@ + guild_chars(g) + ",\"op\":\"stop\"}"@
}

pub open spec fn seek_chars(g: u64, position: u64) -> Seq<char> {
    "{\"guildId\":"@ + guild_chars(g) + ",\"op\":\"seek\",\"position\":"@ + dec_digits(
        position as nat,
    ) + "}"@
}

pub open spec fn seek_frame(g: u64, p: Seek) -> Seq<char> {
    seek_chars(g, p.position)
}

pub open spec fn pause_chars(g: u64, pause: bool) -> Seq<char> {
    "{\"guildId\":"@ + guild_chars(g) + ",\"op\":\"pause\",\"pause\":"@ + bool_chars(pause)
        + "}"@
}

pub open spec fn pause_frame(g: u64, p: Pause) -> Seq<char> {
    pause_chars(g, p.pause)
}

pub open spec fn volume_chars(g: u64, volume: u16) -> Seq<char> {
    "{\"guildId\":"@ + guild_chars(g) + ",\"op\":\"volume\",\"volume\":"@ + dec_digits(
        volume as nat,
    ) + "}"@
}

pub open spec fn volume_frame(g: u64, p: Volume) -> Seq<char> {
    volume_chars(g, p.volume)
}

pub open spec fn play_chars(
    g: u64,
    track: Seq<char>,
    no_replace: bool,
    start_time: u64,
    end_time: Option<u64>,
) -> Seq<char> {
    (match end_time {
        Some(e) => "{\"endTime\":"@ + dec_digits(e as nat) + ",\"guildId\":"@,
        None => "{\"guildId\":"@,
    }) + guild_chars(g) + ",\"noReplace\":"@ + bool_chars(no_replace)
        + ",\"op\":\"play\",\"startTime\":"@ + dec_digits(start_time as nat) + ",\"track\":"@
        + json_string(track) + "}"@
}

pub open spec fn play_frame(g: u64, p: Play) -> Seq<char> {
    play_chars(g, p.track@, p.no_replace, p.start_time, p.end_time)
}

pub open spec fn voice_update_chars(
    g: u64,
    session_id: Seq<char>,
    token: Seq<char>,
    endpoint: Seq<char>,
    event_guild: Seq<char>,
) -> Seq<char> {
    "{\"event\":{\"endpoint\":"@ + json_string(endpoint) + ",\"guildId\":"@ + json_string(
        event_guild,
    ) + ",\"token\":"@ + json_string(token) + "},\"guildId\":"@ + guild_chars(g)
        + ",\"op\":\"voiceUpdate\",\"sessionId\":"@ + json_string(session_id) + "}"@
}

pub open spec fn voice_update_frame(g: u64, p: VoiceUpdate) -> Seq<char> {
    voice_update_chars(g, p.session_id@, p.event.token@, p.event.endpoint@, p.event.guild_id@)
}

pub open spec fn equalizer_frame(g: u64, bands: Seq<Band>) -> Seq<char> {
    "{\"bands\":["@ + bands_chars(bands) + "],\"guildId\":"@ + guild_chars(g)
        + ",\"op\":\"equalizer\"}"@
}

/// The complete frame for one outbound operation.
pub open spec fn frame_chars(c: Codes, g: u64) -> Seq<char> {
    match c {
        Codes::Destroy => destroy_frame(g),
        Codes::Equalize(p) => equalizer_frame(g, p.bands@),
        Codes::Pause(p) => pause_frame(g, p),
        Codes::Play(p) => play_frame(g, p),
        Codes::Seek(p) => seek_frame(g, p),
        Codes::Stop => stop_frame(g),
        Codes::VoiceUpdate(p) => voice_update_frame(g, p),
        Codes::Volume(p) => volume_frame(g, p),
    }
}

proof fn lemma_bands_chars_push(bs: Seq<Band>, b: Band)
    ensures
        bands_chars(bs.push(b)) == if bs.len() == 0 {
            band_chars(b)
        } else {
            bands_chars(bs) + seq![','] + band_chars(b)
        },
    decreases bs.len(),
{
    if bs.len() == 0 {
        assert(bs.push(b).len() == 1);
        assert(bs.push(b)[0] == b);
    } else {
        assert(bs.push(b)[0] == bs[0]);
        assert(bs.push(b).drop_first() =~= bs.drop_first().push(b));
        lemma_bands_chars_push(bs.drop_first(), b);
        if bs.len() == 1 {
            assert(bands_chars(bs.push(b)) =~= bands_chars(bs) + seq![','] + band_chars(b));
        } else {
            assert(bands_chars(bs.push(b)) =~= bands_chars(bs) + seq![','] + band_chars(b));
        }
    }
}

fn push_bool(out: &mut String, b: bool)
    ensures
        final(out)@ == old(out)@ + bool_chars(b),
{
    if b {
        out.append("true");
    } else {
        out.append("false");
    }
}

fn push_milli(out: &mut String, m: i32)
    ensures
        final(out)@ == old(out)@ + milli_chars(m as int),
{
    let mag: u64 = if m < 0 {
        push_char(out, '-');
        (-(m as i64)) as u64
    } else {
        m as u64
    };
    push_dec_u64(out, mag / 1000);
    push_char(out, '.');
    push_char(out, char_of_digit(mag / 100 % 10));
    push_char(out, char_of_digit(mag / 10 % 10));
    push_char(out, char_of_digit(mag % 10));
    assert(out@ =~= old(out)@ + milli_chars(m as int));
}

fn push_guild(out: &mut String, g: u64)
    ensures
        final(out)@ == old(out)@ + guild_chars(g),
{
    out.append("\"");
    push_dec_u64(out, g);
    out.append("\"");
    assert(out@ =~= old(out)@ + guild_chars(g));
}

fn push_band(out: &mut String, b: Band)
    ensures
        final(out)@ == old(out)@ + band_chars(b),
{
    out.append("{\"band\":");
    push_dec_u64(out, b.band as u64);
    out.append(",\"gain\":");
    push_milli(out, b.gain_milli);
    out.append("}");
    assert(out@ =~= old(out)@ + band_chars(b));
}

fn push_bands(out: &mut String, bands: &Vec<Band>)
    ensures
        final(out)@ == old(out)@ + bands_chars(bands@),
{
    let mut i: usize = 0;
    while i < bands.len()
        invariant
            i <= bands@.len(),
            out@ == old(out)@ + bands_chars(bands@.subrange(0, i as int)),
        decreases bands@.len() - i,
    {
        if i > 0 {
            push_char(out, ',');
        }
        proof {
            lemma_bands_chars_push(bands@.subrange(0, i as int), bands@[i as int]);
            assert(bands@.subrange(0, i as int).push(bands@[i as int]) =~= bands@.subrange(
                0,
                i as int + 1,
            ));
        }
        push_band(out, bands[i]);
        proof {
            if i == 0 {
                assert(out@ =~= old(out)@ + bands_chars(bands@.subrange(0, i as int + 1)));
            } else {
                assert(out@ =~= old(out)@ + bands_chars(bands@.subrange(0, i as int + 1)));
            }
        }
        i = i + 1;
    }
    proof {
        assert(bands@.subrange(0, bands@.len() as int) =~= bands@);
    }
}

impl Codes {
    /// Encodes this operation for the given guild as one complete text frame.
    pub fn encode(&self, guild_id: u64) -> (r: String)
        ensures
            r@ == frame_chars(*self, guild_id),
    {
        let mut out = String::new();
        match self {
            Codes::Destroy => {
                out.append("{\"guildId\":");
                push_guild(&mut out, guild_id);
                out.append(",\"op\":\"destroy\"}");
                assert(out@ =~= frame_chars(*self, guild_id));
            },
            Codes::Stop => {
                out.append("{\"guildId\":");
                push_guild(&mut out, guild_id);
                out.append(",\"op\":\"stop\"}");
                assert(out@ =~= frame_chars(*self, guild_id));
            },
            Codes::Seek(p) => {
                out.append("{\"guildId\":");
                push_guild(&mut out, guild_id);
                out.append(",\"op\":\"seek\",\"position\":");
                push_dec_u64(&mut out, p.position);
                out.append("}");
                assert(out@ =~= frame_chars(*self, guild_id));
            },
            Codes::Pause(p) => {
                out.append("{\"guildId\":");
                push_guild(&mut out, guild_id);
                out.append(",\"op\":\"pause\",\"pause\":");
                push_bool(&mut out, p.pause);
                out.append("}");
                assert(out@ =~= frame_chars(*self, guild_id));
            },
            Codes::Volume(p) => {
                out.append("{\"guildId\":");
                push_guild(&mut out, guild_id);
                out.append(",\"op\":\"volume\",\"volume\":");
                push_dec_u64(&mut out, p.volume as u64);
                out.append("}");
                assert(out@ =~= frame_chars(*self, guild_id));
            },
            Codes::Play(p) => {
                match &p.end_time {
                    Some(e) => {
                        out.append("{\"endTime\":");
                        push_dec_u64(&mut out, *e);
                        out.append(",\"guildId\":");
                    },
                    None => {
                        out.append("{\"guildId\":");
                    },
                }
                push_guild(&mut out, guild_id);
                out.append(",\"noReplace\":");
                push_bool(&mut out, p.no_replace);
                out.append(",\"op\":\"play\",\"startTime\":");
                push_dec_u64(&mut out, p.start_time);
                out.append(",\"track\":");
                push_json_string(&mut out, p.track.as_str());
                out.append("}");
                assert(out@ =~= frame_chars(*self, guild_id));
            },
            Codes::VoiceUpdate(p) => {
                out.append("{\"event\":{\"endpoint\":");
                push_json_string(&mut out, p.event.endpoint.as_str());
                out.append(",\"guildId\":");
                push_json_string(&mut out, p.event.guild_id.as_str());
                out.append(",\"token\":");
                push_json_string(&mut out, p.event.token.as_str());
                out.append("},\"guildId\":");
                push_guild(&mut out, guild_id);
                out.append(",\"op\":\"voiceUpdate\",\"sessionId\":");
                push_json_string(&mut out, p.session_id.as_str());
                out.append("}");
                assert(out@ =~= frame_chars(*self, guild_id));
            },
            Codes::Equalize(p) => {
                out.append("{\"bands\":[");
                push_bands(&mut out, &p.bands);
                out.append("],\"guildId\":");
                push_guild(&mut out, guild_id);
                out.append(",\"op\":\"equalizer\"}");
                assert(out@ =~= frame_chars(*self, guild_id));
            },
        }
        out
    }
}

} // verus!
