//! The song model: lyrics markup readers and the song invariants.

use ekkles_data::song::{
    parse_lyrics, split_into_parts, strip_chords_and_newlines, Song,
};

const RAW_LYRICS: &str = r"[V1]
.Bb                       F        Eb Bb
 Low in the grave He lay, Jesus my Savior!
.Eb          Bb          Gm/Bb C      F
 Waiting the coming day, Je____sus my Lord!

[C]
.            Bb
 (Spirited!) Up from the grave He arose,
.              Cm               Bb
 With a mighty triumph o'er His foes;
.    F                      Gm   Eb Bb
 He arose a victor from the dark do_main,
.       Eb       C             F      C7/G F/A
 And He lives forever with His saints to   reign,
.    Bb        Eb         Bb     F       Bb
 He arose! He arose! Hallelujah! Christ arose!

[V2]
.Bb                         F        Eb Bb
 Vainly they watch His bed, Jesus my Savior!
.Eb          Bb             Gm/Bb C      F
 Vainly they seal the dead, Je____sus my Lord!

[V3]
.Bb                          F        Eb Bb
 Death cannot keep his prey, Jesus my Savior!
.Eb          Bb         Gm/Bb C      F
 He tore the bars away, Je____sus my Lord!";

const CHORDLESS_LYRICS: &str = "[V1] Low in the grave He lay, Jesus my Savior! Waiting the coming day, Je____sus my Lord![C] (Spirited!) Up from the grave He arose, With a mighty triumph o'er His foes; He arose a victor from the dark do_main, And He lives forever with His saints to   reign, He arose! He arose! Hallelujah! Christ arose![V2] Vainly they watch His bed, Jesus my Savior! Vainly they seal the dead, Je____sus my Lord![V3] Death cannot keep his prey, Jesus my Savior! He tore the bars away, Je____sus my Lord!";

#[test]
fn strip_chords_test() {
    let mut input = RAW_LYRICS.to_string();
    strip_chords_and_newlines(&mut input);
    assert_eq!(input, CHORDLESS_LYRICS);
}

#[test]
fn split_into_parts_test() {
    let expected = vec![
        (
            String::from(
                "Low in the grave He lay, Jesus my Savior! Waiting the coming day, Je____sus my Lord!",
            ),
            String::from("V1"),
        ),
        (
            String::from(
                "(Spirited!) Up from the grave He arose, With a mighty triumph o'er His foes; He arose a victor from the dark do_main, And He lives forever with His saints to   reign, He arose! He arose! Hallelujah! Christ arose!",
            ),
            String::from("C"),
        ),
        (
            String::from(
                "Vainly they watch His bed, Jesus my Savior! Vainly they seal the dead, Je____sus my Lord!",
            ),
            String::from("V2"),
        ),
        (
            String::from(
                "Death cannot keep his prey, Jesus my Savior! He tore the bars away, Je____sus my Lord!",
            ),
            String::from("V3"),
        ),
    ];
    let res = split_into_parts(CHORDLESS_LYRICS).expect("Slova jsou ve správném formátu");
    assert_eq!(res, expected);
}

#[test]
fn split_into_parts_rejects_stray_brackets() {
    assert!(split_into_parts("[V1[ text").is_err());
    assert!(split_into_parts("[V1] text ] more").is_err());
}

#[test]
fn parse_lyrics_test() {
    const RAW: &str = r"[V1]
 Low in the grave He lay, Jesus my Savior!
.Eb          Bb          Gm/Bb C      F
 Waiting the coming day, Je____sus my Lord!

[C]
.            Bb
 (Spirited!) Up from the grave He arose,
.              Cm               Bb
 With a mighty triumph o'er His foes;
.    F                      Gm   Eb Bb
 He arose a victor from the dark do_main,
.       Eb       C             F      C7/G F/A
 And He lives forever with His saints to   reign,
.    Bb        Eb         Bb     F       Bb
 He arose! He arose! Hallelujah! Christ arose!

[V2]
.Bb                         F        Eb Bb
 Vainly they watch His bed, Jesus my Savior!
.Eb          Bb             Gm/Bb C      F
 Vainly they seal the dead, Je____sus my Lord!

[V3]
.Bb                          F        Eb Bb
 Death cannot keep his prey, Jesus my Savior!
.Eb          Bb         Gm/Bb C      F
 He tore the bars away, Je____sus my Lord!";

    let expected = vec![
        (
            String::from("V1"),
            String::from(
                "Low in the grave He lay, Jesus my Savior!\nWaiting the coming day, Je____sus my Lord!",
            ),
        ),
        (
            String::from("C"),
            String::from(
                "(Spirited!) Up from the grave He arose,\nWith a mighty triumph o'er His foes;\nHe arose a victor from the dark do_main,\nAnd He lives forever with His saints to   reign,\nHe arose! He arose! Hallelujah! Christ arose!",
            ),
        ),
        (
            String::from("V2"),
            String::from(
                "Vainly they watch His bed, Jesus my Savior!\nVainly they seal the dead, Je____sus my Lord!",
            ),
        ),
        (
            String::from("V3"),
            String::from(
                "Death cannot keep his prey, Jesus my Savior!\nHe tore the bars away, Je____sus my Lord!",
            ),
        ),
    ];
    let res = parse_lyrics(RAW);
    assert_eq!(res, expected);
}

#[test]
fn parse_from_xml_test() {
    const CHRIST_AROSE_RAW_XML: &str = r#"<?xml version="1.0" encoding="UTF-8"?>
<song>
  <title>Christ Arose</title>
  <author>Robert Lowry, 1874</author>
  <copyright>Public Domain</copyright>
  <presentation>V1 C V2 C V3 C</presentation>
  <capo print="true">3</capo>
  <tempo></tempo>
  <timesig></timesig>
  <ccli>27783</ccli>
  <theme>Christ: Victory</theme>
  <alttheme></alttheme>
  <user1></user1>
  <user2></user2>
  <user3></user3>
  <lyrics>[V1]
.Bb                       F        Eb Bb
 Low in the grave He lay, Jesus my Savior!
.Eb          Bb          Gm/Bb C      F
 Waiting the coming day, Je____sus my Lord!

[C]
.            Bb
 (Spirited!) Up from the grave He arose,
.              Cm               Bb
 With a mighty triumph o'er His foes;
.    F                      Gm   Eb Bb
 He arose a victor from the dark do_main,
.       Eb       C             F      C7/G F/A
 And He lives forever with His saints to   reign,
.    Bb        Eb         Bb     F       Bb
 He arose! He arose! Hallelujah! Christ arose!

[V2]
.Bb                         F        Eb Bb
 Vainly they watch His bed, Jesus my Savior!
.Eb          Bb             Gm/Bb C      F
 Vainly they seal the dead, Je____sus my Lord!

[V3]
.Bb                          F        Eb Bb
 Death cannot keep his prey, Jesus my Savior!
.Eb          Bb         Gm/Bb C      F
 He tore the bars away, Je____sus my Lord!</lyrics></song>"#;

    const HALELUJA_RAW_XML: &str = r#"<?xml version="1.0" encoding="UTF-8"?>
<song>
  <title>Haleluja (Svatý Pán Bůh Všemohoucí)</title>
  <lyrics>[C]
 Haleluja, haleluja,
 vládne nám všemocný Bůh a Král.

[V1a]
 Haleluja, Svatý, Svatý,
 Svatý Pán Bůh Všemohoucí,
 hoden je On sám,
 Beránek, náš Pán,
 přijmout chválu,

[V1b]
 Svatý, Svatý Pán Bůh Všemohoucí,
 hoden je On sám,
 Beránek, náš Pán,
 přijmout chválu.

[V2a]
 Haleluja, Svatý, Svatý,
 Ty jsi náš Bůh Všemohoucí,
 přijmi, Pane náš,
 přijmi, Pane náš,
 naši chválu,

[V2b]
 Svatý, Ty jsi náš Bůh Všemohoucí,
 přijmi, Pane náš,
 přijmi, Pane náš,
 chválu.</lyrics>
  <author></author>
  <copyright></copyright>
  <hymn_number></hymn_number>
  <presentation></presentation>
  <ccli></ccli>
  <capo print="false"></capo>
  <key></key>
  <aka></aka>
  <key_line></key_line>
  <user1></user1>
  <user2></user2>
  <user3></user3>
  <theme></theme>
  <linked_songs/>
  <tempo></tempo>
  <time_sig></time_sig>
  <backgrounds resize="screen" keep_aspect="false" link="false" background_as_text="false"/>
</song>"#;

    let christ_arose_expected = Song {
        title: String::from("Christ Arose"),
        author: Some(String::from("Robert Lowry, 1874")),
        parts: vec![
            (
                String::from("V1"),
                String::from(
                    "Low in the grave He lay, Jesus my Savior!\nWaiting the coming day, Je____sus my Lord!",
                ),
            ),
            (
                String::from("C"),
                String::from(
                    "(Spirited!) Up from the grave He arose,\nWith a mighty triumph o'er His foes;\nHe arose a victor from the dark do_main,\nAnd He lives forever with His saints to   reign,\nHe arose! He arose! Hallelujah! Christ arose!",
                ),
            ),
            (
                String::from("V2"),
                String::from(
                    "Vainly they watch His bed, Jesus my Savior!\nVainly they seal the dead, Je____sus my Lord!",
                ),
            ),
            (
                String::from("V3"),
                String::from(
                    "Death cannot keep his prey, Jesus my Savior!\nHe tore the bars away, Je____sus my Lord!",
                ),
            ),
        ],
        order: vec![
            String::from("V1"),
            String::from("C"),
            String::from("V2"),
            String::from("C"),
            String::from("V3"),
            String::from("C"),
        ],
    };

    let haleluja_expected = Song {
        title: String::from("Haleluja (Svatý Pán Bůh Všemohoucí)"),
        author: None,
        parts: vec![
            (
                String::from("C"),
                String::from("Haleluja, haleluja,\nvládne nám všemocný Bůh a Král."),
            ),
            (
                String::from("V1a"),
                String::from(
                    "Haleluja, Svatý, Svatý,\nSvatý Pán Bůh Všemohoucí,\nhoden je On sám,\nBeránek, náš Pán,\npřijmout chválu,",
                ),
            ),
            (
                String::from("V1b"),
                String::from(
                    "Svatý, Svatý Pán Bůh Všemohoucí,\nhoden je On sám,\nBeránek, náš Pán,\npřijmout chválu.",
                ),
            ),
            (
                String::from("V2a"),
                String::from(
                    "Haleluja, Svatý, Svatý,\nTy jsi náš Bůh Všemohoucí,\npřijmi, Pane náš,\npřijmi, Pane náš,\nnaši chválu,",
                ),
            ),
            (
                String::from("V2b"),
                String::from(
                    "Svatý, Ty jsi náš Bůh Všemohoucí,\npřijmi, Pane náš,\npřijmi, Pane náš,\nchválu.",
                ),
            ),
        ],
        order: vec![
            String::from("C"),
            String::from("V1a"),
            String::from("V1b"),
            String::from("V2a"),
            String::from("V2b"),
        ],
    };

    let christ_arose_result =
        Song::parse_from_xml(CHRIST_AROSE_RAW_XML).expect("Píseň je ve správném formátu");
    let haleluja_result =
        Song::parse_from_xml(HALELUJA_RAW_XML).expect("Píseň je ve správném formátu");

    assert_eq!(christ_arose_result, christ_arose_expected);
    assert_eq!(haleluja_result, haleluja_expected);
}

fn haleluja_parts() -> Vec<(String, String)> {
    vec![
        (
            String::from("C"),
            String::from("Haleluja, haleluja,\nvládne nám všemocný Bůh a Král."),
        ),
        (
            String::from("V1a"),
            String::from(
                "Haleluja, Svatý, Svatý,\nSvatý Pán Bůh Všemohoucí,\nhoden je On sám,\nBeránek, náš Pán,\npřijmout chválu,",
            ),
        ),
        (
            String::from("V1b"),
            String::from(
                "Svatý, Svatý Pán Bůh Všemohoucí,\nhoden je On sám,\nBeránek, náš Pán,\npřijmout chválu.",
            ),
        ),
        (
            String::from("V2a"),
            String::from(
                "Haleluja, Svatý, Svatý,\nTy jsi náš Bůh Všemohoucí,\npřijmi, Pane náš,\npřijmi, Pane náš,\nnaši chválu,",
            ),
        ),
        (
            String::from("V2b"),
            String::from(
                "Svatý, Ty jsi náš Bůh Všemohoucí,\npřijmi, Pane náš,\npřijmi, Pane náš,\nchválu.",
            ),
        ),
    ]
}

#[test]
fn check_invariants_test_space() {
    let mut parts = haleluja_parts();
    parts.push((String::from("TAG S MEZERAMI"), String::from("Smyšlená slova")));
    let song = Song {
        title: String::from("Haleluja (Svatý Pán Bůh Všemohoucí)"),
        author: None,
        parts,
        order: vec![
            String::from("C"),
            String::from("V1a"),
            String::from("V1b"),
            String::from("V2a"),
            String::from("V2b"),
            String::from("TAG S MEZERAMI"),
        ],
    };

    assert!(
        song.check_invariants()
            .is_err_and(|e| e.message().contains("obsahuje tag s mezerou"))
    )
}

#[test]
fn check_invariants_test_matching_tags() {
    let song = Song {
        title: String::from("Haleluja (Svatý Pán Bůh Všemohoucí)"),
        author: None,
        parts: haleluja_parts(),
        order: vec![
            String::from("C"),
            String::from("V1a"),
            String::from("V1b"),
            String::from("V2a"),
            // V2b missing from the order
        ],
    };

    assert!(
        song.check_invariants()
            .is_err_and(|e| e.message().contains("má odlišné tagy"))
    )
}

#[test]
fn check_invariants_accepts_a_sound_song() {
    let song = Song {
        title: String::from("Haleluja (Svatý Pán Bůh Všemohoucí)"),
        author: None,
        parts: haleluja_parts(),
        order: vec![
            String::from("C"),
            String::from("V1a"),
            String::from("V1b"),
            String::from("V2a"),
            String::from("V2b"),
        ],
    };
    assert!(song.check_invariants().is_ok());
    assert!(song.check_order_validity().is_ok());
}

#[test]
fn check_order_validity_rejects_unknown_tags() {
    let song = Song {
        title: String::from("Haleluja (Svatý Pán Bůh Všemohoucí)"),
        author: None,
        parts: haleluja_parts(),
        order: vec![String::from("C"), String::from("Neexistující_tag")],
    };
    assert!(song.check_order_validity().is_err());
}
