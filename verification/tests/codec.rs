//! Exact wire frames produced by the outbound codec.

use andelink::codec::{Band, Codes, Equalize, Event, Pause, Play, Seek, VoiceUpdate, Volume};

#[test]
fn destroy_frame_text() {
    assert_eq!(
        Codes::Destroy.encode(1234),
        "{\"guildId\":\"1234\",\"op\":\"destroy\"}"
    );
}

#[test]
fn stop_frame_text() {
    assert_eq!(Codes::Stop.encode(0), "{\"guildId\":\"0\",\"op\":\"stop\"}");
}

#[test]
fn seek_frame_text() {
    assert_eq!(
        Codes::Seek(Seek { position: 90500 }).encode(77),
        "{\"guildId\":\"77\",\"op\":\"seek\",\"position\":90500}"
    );
}

#[test]
fn pause_frame_text() {
    assert_eq!(
        Codes::Pause(Pause { pause: true }).encode(5),
        "{\"guildId\":\"5\",\"op\":\"pause\",\"pause\":true}"
    );
    assert_eq!(
        Codes::Pause(Pause { pause: false }).encode(5),
        "{\"guildId\":\"5\",\"op\":\"pause\",\"pause\":false}"
    );
}

#[test]
fn volume_frame_text() {
    assert_eq!(
        Codes::Volume(Volume { volume: 100 }).encode(18446744073709551615),
        "{\"guildId\":\"18446744073709551615\",\"op\":\"volume\",\"volume\":100}"
    );
}

#[test]
fn play_frame_without_end_time() {
    let p = Play {
        track: "QAAAtrack".to_string(),
        no_replace: true,
        start_time: 0,
        end_time: None,
    };
    assert_eq!(
        Codes::Play(p).encode(42),
        "{\"guildId\":\"42\",\"noReplace\":true,\"op\":\"play\",\"startTime\":0,\"track\":\"QAAAtrack\"}"
    );
}

#[test]
fn play_frame_with_end_time() {
    let p = Play {
        track: "t".to_string(),
        no_replace: false,
        start_time: 1500,
        end_time: Some(30000),
    };
    assert_eq!(
        Codes::Play(p).encode(42),
        "{\"endTime\":30000,\"guildId\":\"42\",\"noReplace\":false,\"op\":\"play\",\"startTime\":1500,\"track\":\"t\"}"
    );
}

#[test]
fn play_frame_escapes_track_text() {
    let p = Play {
        track: "a\"b\\c\nd".to_string(),
        no_replace: false,
        start_time: 0,
        end_time: None,
    };
    assert_eq!(
        Codes::Play(p).encode(1),
        "{\"guildId\":\"1\",\"noReplace\":false,\"op\":\"play\",\"startTime\":0,\"track\":\"a\\\"b\\\\c\\nd\"}"
    );
}

#[test]
fn voice_update_frame_text() {
    let p = VoiceUpdate {
        session_id: "sess".to_string(),
        event: Event {
            token: "tok".to_string(),
            endpoint: "eu.example.net:443".to_string(),
            guild_id: "507".to_string(),
        },
    };
    assert_eq!(
        Codes::VoiceUpdate(p).encode(507),
        "{\"event\":{\"endpoint\":\"eu.example.net:443\",\"guildId\":\"507\",\"token\":\"tok\"},\"guildId\":\"507\",\"op\":\"voiceUpdate\",\"sessionId\":\"sess\"}"
    );
}

#[test]
fn equalizer_frame_text() {
    let p = Equalize {
        bands: vec![
            Band { band: 0, gain_milli: -250 },
            Band { band: 7, gain_milli: 0 },
            Band { band: 14, gain_milli: 1000 },
        ],
    };
    assert_eq!(
        Codes::Equalize(p).encode(9),
        "{\"bands\":[{\"band\":0,\"gain\":-0.250},{\"band\":7,\"gain\":0.000},{\"band\":14,\"gain\":1.000}],\"guildId\":\"9\",\"op\":\"equalizer\"}"
    );
}

#[test]
fn equalizer_frame_empty_bands() {
    let p = Equalize { bands: vec![] };
    assert_eq!(
        Codes::Equalize(p).encode(9),
        "{\"bands\":[],\"guildId\":\"9\",\"op\":\"equalizer\"}"
    );
}

#[test]
fn frames_are_valid_json() {
    let frames = vec![
        Codes::Destroy.encode(1),
        Codes::Stop.encode(2),
        Codes::Seek(Seek { position: 3 }).encode(4),
        Codes::Pause(Pause { pause: true }).encode(5),
        Codes::Volume(Volume { volume: 10 }).encode(6),
        Codes::Play(Play {
            track: "x\"y".to_string(),
            no_replace: true,
            start_time: 1,
            end_time: Some(2),
        })
        .encode(7),
        Codes::Equalize(Equalize {
            bands: vec![Band { band: 1, gain_milli: -125 }],
        })
        .encode(8),
    ];
    for f in frames {
        let v: serde_json::Value = serde_json::from_str(&f).unwrap();
        assert!(v.get("op").is_some());
        assert!(v.get("guildId").and_then(|g| g.as_str()).is_some());
    }
}
