//! ARRL DXCC entity numbers of the prefixes that the cty.dat lookup
//! returns. The entity number is what DXCC-based awards count.
//!
//! The table covers the most active prefixes, matched exactly as cty.dat
//! writes them (W for W1AW, not the canonical K). A prefix not in it has
//! no number here, which is a hint, not a verdict.
use vstd::prelude::*;

use crate::text::{chars_eq_str, chars_of, str_trim, trim, upper_chars, upper_seq};

verus! {

/// Each prefix with its DXCC entity number.
pub open spec fn dxcc_table() -> Seq<(Seq<char>, u16)> {
    seq![
        ("K"@, 291u16), ("W"@, 291u16), ("N"@, 291u16), ("AA"@, 291u16), ("AB"@, 291u16), ("AC"@, 291u16),
        ("AD"@, 291u16), ("AE"@, 291u16), ("AF"@, 291u16), ("AG"@, 291u16), ("AH"@, 291u16), ("AI"@, 291u16),
        ("AJ"@, 291u16), ("AK"@, 291u16), ("AL"@, 291u16), ("VE"@, 1u16), ("VA"@, 1u16), ("VO"@, 1u16),
        ("VY"@, 1u16), ("XE"@, 50u16), ("XF"@, 50u16), ("4A"@, 50u16), ("4B"@, 50u16), ("4C"@, 50u16),
        ("6D"@, 50u16), ("6E"@, 50u16), ("6F"@, 50u16), ("6G"@, 50u16), ("6H"@, 50u16), ("6I"@, 50u16),
        ("CO"@, 70u16), ("CL"@, 70u16), ("CM"@, 70u16), ("T4"@, 70u16), ("FP"@, 277u16), ("FM"@, 84u16),
        ("FG"@, 79u16), ("VP9"@, 64u16), ("ZF"@, 69u16), ("C6"@, 60u16), ("PY"@, 108u16), ("PP"@, 108u16),
        ("PR"@, 108u16), ("PS"@, 108u16), ("PT"@, 108u16), ("PU"@, 108u16), ("PV"@, 108u16), ("PW"@, 108u16),
        ("LU"@, 100u16), ("AY"@, 100u16), ("AZ"@, 100u16), ("L2"@, 100u16), ("L3"@, 100u16), ("L4"@, 100u16),
        ("L5"@, 100u16), ("L6"@, 100u16), ("L7"@, 100u16), ("L8"@, 100u16), ("L9"@, 100u16), ("CE"@, 112u16),
        ("XQ"@, 112u16), ("3G"@, 112u16), ("OA"@, 136u16), ("HC"@, 120u16), ("CX"@, 144u16), ("ZP"@, 132u16),
        ("CP"@, 104u16), ("HK"@, 116u16), ("YV"@, 148u16), ("YW"@, 148u16), ("YX"@, 148u16), ("YY"@, 148u16),
        ("4M"@, 148u16), ("G"@, 223u16), ("M"@, 223u16), ("2E"@, 223u16), ("GW"@, 294u16), ("MW"@, 294u16),
        ("2W"@, 294u16), ("GM"@, 279u16), ("MM"@, 279u16), ("2M"@, 279u16), ("GD"@, 114u16), ("MD"@, 114u16),
        ("2D"@, 114u16), ("GI"@, 265u16), ("MI"@, 265u16), ("2I"@, 265u16), ("GJ"@, 122u16), ("MJ"@, 122u16),
        ("2J"@, 122u16), ("GU"@, 106u16), ("MU"@, 106u16), ("2U"@, 106u16), ("EI"@, 245u16), ("EJ"@, 245u16),
        ("DL"@, 230u16), ("DA"@, 230u16), ("DB"@, 230u16), ("DC"@, 230u16), ("DD"@, 230u16), ("DF"@, 230u16),
        ("DG"@, 230u16), ("DH"@, 230u16), ("DJ"@, 230u16), ("DK"@, 230u16), ("DM"@, 230u16), ("DN"@, 230u16),
        ("DO"@, 230u16), ("DP"@, 230u16), ("DQ"@, 230u16), ("DR"@, 230u16), ("F"@, 227u16), ("TM"@, 227u16),
        ("I"@, 248u16), ("IK"@, 248u16), ("IZ"@, 248u16), ("IW"@, 248u16), ("IV"@, 248u16), ("IU"@, 248u16),
        ("IN"@, 248u16), ("IR"@, 248u16), ("EA"@, 281u16), ("EB"@, 281u16), ("EC"@, 281u16), ("ED"@, 281u16),
        ("EE"@, 281u16), ("EF"@, 281u16), ("EG"@, 281u16), ("EH"@, 281u16), ("EA6"@, 21u16), ("EB6"@, 21u16),
        ("EC6"@, 21u16), ("EA8"@, 29u16), ("EB8"@, 29u16), ("EC8"@, 29u16), ("EA9"@, 32u16), ("EB9"@, 32u16),
        ("EC9"@, 32u16), ("CT"@, 272u16), ("CR"@, 272u16), ("CS"@, 272u16), ("CT3"@, 256u16), ("CR3"@, 256u16),
        ("CU"@, 149u16), ("ON"@, 209u16), ("OO"@, 209u16), ("OP"@, 209u16), ("OQ"@, 209u16), ("OR"@, 209u16),
        ("OS"@, 209u16), ("OT"@, 209u16), ("PA"@, 263u16), ("PB"@, 263u16), ("PC"@, 263u16), ("PD"@, 263u16),
        ("PE"@, 263u16), ("PF"@, 263u16), ("PG"@, 263u16), ("PH"@, 263u16), ("PI"@, 263u16), ("LX"@, 254u16),
        ("OE"@, 206u16), ("HB9"@, 287u16), ("HB3"@, 287u16), ("HB0"@, 251u16), ("OK"@, 503u16), ("OL"@, 503u16),
        ("OM"@, 504u16), ("HA"@, 239u16), ("HG"@, 239u16), ("SM"@, 284u16), ("SA"@, 284u16), ("SB"@, 284u16),
        ("SC"@, 284u16), ("SD"@, 284u16), ("SE"@, 284u16), ("SF"@, 284u16), ("SG"@, 284u16), ("SH"@, 284u16),
        ("SI"@, 284u16), ("SJ"@, 284u16), ("SK"@, 284u16), ("SL"@, 284u16), ("8S"@, 284u16), ("7S"@, 284u16),
        ("LA"@, 266u16), ("LB"@, 266u16), ("LC"@, 266u16), ("LD"@, 266u16), ("LE"@, 266u16), ("LF"@, 266u16),
        ("LG"@, 266u16), ("LH"@, 266u16), ("LI"@, 266u16), ("LJ"@, 266u16), ("LK"@, 266u16), ("LL"@, 266u16),
        ("LM"@, 266u16), ("LN"@, 266u16), ("OZ"@, 221u16), ("OU"@, 221u16), ("OV"@, 221u16), ("OW"@, 221u16),
        ("5P"@, 221u16), ("5Q"@, 221u16), ("OH"@, 224u16), ("OF"@, 224u16), ("OG"@, 224u16), ("OI"@, 224u16),
        ("SP"@, 269u16), ("SN"@, 269u16), ("SO"@, 269u16), ("SQ"@, 269u16), ("3Z"@, 269u16), ("OK1"@, 503u16),
        ("UA"@, 54u16), ("RA"@, 54u16), ("RC"@, 54u16), ("RD"@, 54u16), ("RE"@, 54u16), ("RF"@, 54u16),
        ("RG"@, 54u16), ("RJ"@, 54u16), ("RK"@, 54u16), ("RL"@, 54u16), ("RM"@, 54u16), ("RN"@, 54u16),
        ("RO"@, 54u16), ("RP"@, 54u16), ("RQ"@, 54u16), ("RT"@, 54u16), ("RU"@, 54u16), ("RV"@, 54u16),
        ("RW"@, 54u16), ("RX"@, 54u16), ("RY"@, 54u16), ("RZ"@, 54u16), ("R"@, 54u16), ("UA9"@, 15u16),
        ("RA9"@, 15u16), ("YL"@, 145u16), ("LY"@, 146u16), ("ES"@, 52u16), ("UR"@, 288u16), ("US"@, 288u16),
        ("UT"@, 288u16), ("UU"@, 288u16), ("UV"@, 288u16), ("UW"@, 288u16), ("UX"@, 288u16), ("UY"@, 288u16),
        ("UZ"@, 288u16), ("EM"@, 288u16), ("EN"@, 288u16), ("EO"@, 288u16), ("EU"@, 27u16), ("EV"@, 27u16),
        ("EW"@, 27u16), ("ER"@, 179u16), ("9A"@, 497u16), ("S5"@, 499u16), ("Z3"@, 502u16), ("E7"@, 501u16),
        ("YT"@, 296u16), ("YU"@, 296u16), ("ZA"@, 7u16), ("SV"@, 236u16), ("SV5"@, 45u16), ("SV9"@, 40u16),
        ("5B"@, 215u16), ("C4"@, 215u16), ("TA"@, 390u16), ("TC"@, 390u16), ("9H"@, 257u16), ("1A"@, 246u16),
        ("JA"@, 339u16), ("JE"@, 339u16), ("JF"@, 339u16), ("JG"@, 339u16), ("JH"@, 339u16), ("JI"@, 339u16),
        ("JJ"@, 339u16), ("JK"@, 339u16), ("JL"@, 339u16), ("JM"@, 339u16), ("JN"@, 339u16), ("JO"@, 339u16),
        ("JP"@, 339u16), ("JQ"@, 339u16), ("JR"@, 339u16), ("JS"@, 339u16), ("7J"@, 339u16), ("7K"@, 339u16),
        ("7L"@, 339u16), ("7M"@, 339u16), ("7N"@, 339u16), ("8J"@, 339u16), ("8N"@, 339u16), ("BY"@, 318u16),
        ("BG"@, 318u16), ("BA"@, 318u16), ("BD"@, 318u16), ("BH"@, 318u16), ("BI"@, 318u16), ("BJ"@, 318u16),
        ("BT"@, 318u16), ("BV"@, 386u16), ("HL"@, 137u16), ("DS"@, 137u16), ("6K"@, 137u16), ("6L"@, 137u16),
        ("6M"@, 137u16), ("6N"@, 137u16), ("P5"@, 344u16), ("VU"@, 324u16), ("AP"@, 372u16), ("S2"@, 305u16),
        ("9V"@, 381u16), ("9M2"@, 299u16), ("9W2"@, 299u16), ("9M6"@, 46u16), ("9M8"@, 46u16), ("9W6"@, 46u16),
        ("9W8"@, 46u16), ("HS"@, 387u16), ("E2"@, 387u16), ("XV"@, 293u16), ("3W"@, 293u16), ("DU"@, 375u16),
        ("DV"@, 375u16), ("DW"@, 375u16), ("DX"@, 375u16), ("DY"@, 375u16), ("DZ"@, 375u16), ("4D"@, 375u16),
        ("4E"@, 375u16), ("4F"@, 375u16), ("4G"@, 375u16), ("4H"@, 375u16), ("4I"@, 375u16), ("YB"@, 327u16),
        ("YC"@, 327u16), ("YD"@, 327u16), ("YE"@, 327u16), ("YF"@, 327u16), ("YG"@, 327u16), ("YH"@, 327u16),
        ("VR"@, 321u16), ("XX9"@, 152u16), ("4X"@, 336u16), ("4Z"@, 336u16), ("JY"@, 342u16), ("OD"@, 354u16),
        ("YK"@, 384u16), ("YI"@, 333u16), ("EP"@, 330u16), ("EQ"@, 330u16), ("A4"@, 370u16), ("A6"@, 391u16),
        ("A7"@, 376u16), ("A9"@, 304u16), ("9K"@, 348u16), ("HZ"@, 378u16), ("7Z"@, 378u16), ("8Z"@, 378u16),
        ("ZS"@, 462u16), ("ZR"@, 462u16), ("5N"@, 450u16), ("5R"@, 438u16), ("6X"@, 438u16), ("SU"@, 478u16),
        ("7X"@, 400u16), ("CN"@, 446u16), ("3V"@, 474u16), ("5A"@, 436u16), ("5T"@, 444u16), ("ST"@, 466u16),
        ("ET"@, 53u16), ("5Z"@, 430u16), ("5H"@, 470u16), ("C9"@, 181u16), ("Z2"@, 452u16), ("9J"@, 482u16),
        ("V5"@, 464u16), ("VK"@, 150u16), ("AX"@, 150u16), ("ZL"@, 170u16), ("KH6"@, 110u16), ("AH6"@, 110u16),
        ("WH6"@, 110u16), ("NH6"@, 110u16), ("KL7"@, 6u16), ("AL7"@, 6u16), ("WL7"@, 6u16), ("NL7"@, 6u16),
        ("KP4"@, 202u16), ("WP4"@, 202u16), ("NP4"@, 202u16), ("KP2"@, 285u16), ("WP2"@, 285u16), ("NP2"@, 285u16),
        ("VP2E"@, 12u16), ("VP2M"@, 96u16), ("VP2V"@, 65u16), ("PJ7"@, 519u16), ("FK"@, 162u16), ("YJ"@, 158u16),
        ("T8"@, 22u16), ("OX"@, 237u16), ("TF"@, 242u16),
    ]
}

/// The number of the first row whose prefix is `p`.
pub open spec fn table_find(t: Seq<(Seq<char>, u16)>, p: Seq<char>) -> Option<u16>
    decreases t.len(),
{
    if t.len() == 0 {
        None
    } else if t[0].0 == p {
        Some(t[0].1)
    } else {
        table_find(t.drop_first(), p)
    }
}

/// The DXCC entity of a prefix, compared after trimming and without
/// regard to ASCII case.
pub open spec fn dxcc_id_of(prefix: Seq<char>) -> Option<u16> {
    table_find(dxcc_table(), upper_seq(trim(prefix)))
}

pub open spec fn table_view(t: Seq<(&'static str, u16)>) -> Seq<(Seq<char>, u16)> {
    t.map_values(|e: (&'static str, u16)| (e.0@, e.1))
}

fn dxcc_table_vec() -> (r: Vec<(&'static str, u16)>)
    ensures
        table_view(r@) == dxcc_table(),
{
    let r = vec![
        ("K", 291u16), ("W", 291u16), ("N", 291u16), ("AA", 291u16), ("AB", 291u16), ("AC", 291u16),
        ("AD", 291u16), ("AE", 291u16), ("AF", 291u16), ("AG", 291u16), ("AH", 291u16), ("AI", 291u16),
        ("AJ", 291u16), ("AK", 291u16), ("AL", 291u16), ("VE", 1u16), ("VA", 1u16), ("VO", 1u16),
        ("VY", 1u16), ("XE", 50u16), ("XF", 50u16), ("4A", 50u16), ("4B", 50u16), ("4C", 50u16),
        ("6D", 50u16), ("6E", 50u16), ("6F", 50u16), ("6G", 50u16), ("6H", 50u16), ("6I", 50u16),
        ("CO", 70u16), ("CL", 70u16), ("CM", 70u16), ("T4", 70u16), ("FP", 277u16), ("FM", 84u16),
        ("FG", 79u16), ("VP9", 64u16), ("ZF", 69u16), ("C6", 60u16), ("PY", 108u16), ("PP", 108u16),
        ("PR", 108u16), ("PS", 108u16), ("PT", 108u16), ("PU", 108u16), ("PV", 108u16), ("PW", 108u16),
        ("LU", 100u16), ("AY", 100u16), ("AZ", 100u16), ("L2", 100u16), ("L3", 100u16), ("L4", 100u16),
        ("L5", 100u16), ("L6", 100u16), ("L7", 100u16), ("L8", 100u16), ("L9", 100u16), ("CE", 112u16),
        ("XQ", 112u16), ("3G", 112u16), ("OA", 136u16), ("HC", 120u16), ("CX", 144u16), ("ZP", 132u16),
        ("CP", 104u16), ("HK", 116u16), ("YV", 148u16), ("YW", 148u16), ("YX", 148u16), ("YY", 148u16),
        ("4M", 148u16), ("G", 223u16), ("M", 223u16), ("2E", 223u16), ("GW", 294u16), ("MW", 294u16),
        ("2W", 294u16), ("GM", 279u16), ("MM", 279u16), ("2M", 279u16), ("GD", 114u16), ("MD", 114u16),
        ("2D", 114u16), ("GI", 265u16), ("MI", 265u16), ("2I", 265u16), ("GJ", 122u16), ("MJ", 122u16),
        ("2J", 122u16), ("GU", 106u16), ("MU", 106u16), ("2U", 106u16), ("EI", 245u16), ("EJ", 245u16),
        ("DL", 230u16), ("DA", 230u16), ("DB", 230u16), ("DC", 230u16), ("DD", 230u16), ("DF", 230u16),
        ("DG", 230u16), ("DH", 230u16), ("DJ", 230u16), ("DK", 230u16), ("DM", 230u16), ("DN", 230u16),
        ("DO", 230u16), ("DP", 230u16), ("DQ", 230u16), ("DR", 230u16), ("F", 227u16), ("TM", 227u16),
        ("I", 248u16), ("IK", 248u16), ("IZ", 248u16), ("IW", 248u16), ("IV", 248u16), ("IU", 248u16),
        ("IN", 248u16), ("IR", 248u16), ("EA", 281u16), ("EB", 281u16), ("EC", 281u16), ("ED", 281u16),
        ("EE", 281u16), ("EF", 281u16), ("EG", 281u16), ("EH", 281u16), ("EA6", 21u16), ("EB6", 21u16),
        ("EC6", 21u16), ("EA8", 29u16), ("EB8", 29u16), ("EC8", 29u16), ("EA9", 32u16), ("EB9", 32u16),
        ("EC9", 32u16), ("CT", 272u16), ("CR", 272u16), ("CS", 272u16), ("CT3", 256u16), ("CR3", 256u16),
        ("CU", 149u16), ("ON", 209u16), ("OO", 209u16), ("OP", 209u16), ("OQ", 209u16), ("OR", 209u16),
        ("OS", 209u16), ("OT", 209u16), ("PA", 263u16), ("PB", 263u16), ("PC", 263u16), ("PD", 263u16),
        ("PE", 263u16), ("PF", 263u16), ("PG", 263u16), ("PH", 263u16), ("PI", 263u16), ("LX", 254u16),
        ("OE", 206u16), ("HB9", 287u16), ("HB3", 287u16), ("HB0", 251u16), ("OK", 503u16), ("OL", 503u16),
        ("OM", 504u16), ("HA", 239u16), ("HG", 239u16), ("SM", 284u16), ("SA", 284u16), ("SB", 284u16),
        ("SC", 284u16), ("SD", 284u16), ("SE", 284u16), ("SF", 284u16), ("SG", 284u16), ("SH", 284u16),
        ("SI", 284u16), ("SJ", 284u16), ("SK", 284u16), ("SL", 284u16), ("8S", 284u16), ("7S", 284u16),
        ("LA", 266u16), ("LB", 266u16), ("LC", 266u16), ("LD", 266u16), ("LE", 266u16), ("LF", 266u16),
        ("LG", 266u16), ("LH", 266u16), ("LI", 266u16), ("LJ", 266u16), ("LK", 266u16), ("LL", 266u16),
        ("LM", 266u16), ("LN", 266u16), ("OZ", 221u16), ("OU", 221u16), ("OV", 221u16), ("OW", 221u16),
        ("5P", 221u16), ("5Q", 221u16), ("OH", 224u16), ("OF", 224u16), ("OG", 224u16), ("OI", 224u16),
        ("SP", 269u16), ("SN", 269u16), ("SO", 269u16), ("SQ", 269u16), ("3Z", 269u16), ("OK1", 503u16),
        ("UA", 54u16), ("RA", 54u16), ("RC", 54u16), ("RD", 54u16), ("RE", 54u16), ("RF", 54u16),
        ("RG", 54u16), ("RJ", 54u16), ("RK", 54u16), ("RL", 54u16), ("RM", 54u16), ("RN", 54u16),
        ("RO", 54u16), ("RP", 54u16), ("RQ", 54u16), ("RT", 54u16), ("RU", 54u16), ("RV", 54u16),
        ("RW", 54u16), ("RX", 54u16), ("RY", 54u16), ("RZ", 54u16), ("R", 54u16), ("UA9", 15u16),
        ("RA9", 15u16), ("YL", 145u16), ("LY", 146u16), ("ES", 52u16), ("UR", 288u16), ("US", 288u16),
        ("UT", 288u16), ("UU", 288u16), ("UV", 288u16), ("UW", 288u16), ("UX", 288u16), ("UY", 288u16),
        ("UZ", 288u16), ("EM", 288u16), ("EN", 288u16), ("EO", 288u16), ("EU", 27u16), ("EV", 27u16),
        ("EW", 27u16), ("ER", 179u16), ("9A", 497u16), ("S5", 499u16), ("Z3", 502u16), ("E7", 501u16),
        ("YT", 296u16), ("YU", 296u16), ("ZA", 7u16), ("SV", 236u16), ("SV5", 45u16), ("SV9", 40u16),
        ("5B", 215u16), ("C4", 215u16), ("TA", 390u16), ("TC", 390u16), ("9H", 257u16), ("1A", 246u16),
        ("JA", 339u16), ("JE", 339u16), ("JF", 339u16), ("JG", 339u16), ("JH", 339u16), ("JI", 339u16),
        ("JJ", 339u16), ("JK", 339u16), ("JL", 339u16), ("JM", 339u16), ("JN", 339u16), ("JO", 339u16),
        ("JP", 339u16), ("JQ", 339u16), ("JR", 339u16), ("JS", 339u16), ("7J", 339u16), ("7K", 339u16),
        ("7L", 339u16), ("7M", 339u16), ("7N", 339u16), ("8J", 339u16), ("8N", 339u16), ("BY", 318u16),
        ("BG", 318u16), ("BA", 318u16), ("BD", 318u16), ("BH", 318u16), ("BI", 318u16), ("BJ", 318u16),
        ("BT", 318u16), ("BV", 386u16), ("HL", 137u16), ("DS", 137u16), ("6K", 137u16), ("6L", 137u16),
        ("6M", 137u16), ("6N", 137u16), ("P5", 344u16), ("VU", 324u16), ("AP", 372u16), ("S2", 305u16),
        ("9V", 381u16), ("9M2", 299u16), ("9W2", 299u16), ("9M6", 46u16), ("9M8", 46u16), ("9W6", 46u16),
        ("9W8", 46u16), ("HS", 387u16), ("E2", 387u16), ("XV", 293u16), ("3W", 293u16), ("DU", 375u16),
        ("DV", 375u16), ("DW", 375u16), ("DX", 375u16), ("DY", 375u16), ("DZ", 375u16), ("4D", 375u16),
        ("4E", 375u16), ("4F", 375u16), ("4G", 375u16), ("4H", 375u16), ("4I", 375u16), ("YB", 327u16),
        ("YC", 327u16), ("YD", 327u16), ("YE", 327u16), ("YF", 327u16), ("YG", 327u16), ("YH", 327u16),
        ("VR", 321u16), ("XX9", 152u16), ("4X", 336u16), ("4Z", 336u16), ("JY", 342u16), ("OD", 354u16),
        ("YK", 384u16), ("YI", 333u16), ("EP", 330u16), ("EQ", 330u16), ("A4", 370u16), ("A6", 391u16),
        ("A7", 376u16), ("A9", 304u16), ("9K", 348u16), ("HZ", 378u16), ("7Z", 378u16), ("8Z", 378u16),
        ("ZS", 462u16), ("ZR", 462u16), ("5N", 450u16), ("5R", 438u16), ("6X", 438u16), ("SU", 478u16),
        ("7X", 400u16), ("CN", 446u16), ("3V", 474u16), ("5A", 436u16), ("5T", 444u16), ("ST", 466u16),
        ("ET", 53u16), ("5Z", 430u16), ("5H", 470u16), ("C9", 181u16), ("Z2", 452u16), ("9J", 482u16),
        ("V5", 464u16), ("VK", 150u16), ("AX", 150u16), ("ZL", 170u16), ("KH6", 110u16), ("AH6", 110u16),
        ("WH6", 110u16), ("NH6", 110u16), ("KL7", 6u16), ("AL7", 6u16), ("WL7", 6u16), ("NL7", 6u16),
        ("KP4", 202u16), ("WP4", 202u16), ("NP4", 202u16), ("KP2", 285u16), ("WP2", 285u16), ("NP2", 285u16),
        ("VP2E", 12u16), ("VP2M", 96u16), ("VP2V", 65u16), ("PJ7", 519u16), ("FK", 162u16), ("YJ", 158u16),
        ("T8", 22u16), ("OX", 237u16), ("TF", 242u16),
    ];
    assert(table_view(r@) =~= dxcc_table());
    r
}

/// The ARRL DXCC entity number of a cty.dat prefix, if the table has it.
pub fn dxcc_id_for_prefix(prefix: &str) -> (r: Option<u16>)
    ensures
        r == dxcc_id_of(prefix@),
{
    let p = upper_chars(&chars_of(str_trim(prefix)));
    let t = dxcc_table_vec();
    let ghost tv = table_view(t@);
    let mut i: usize = 0;
    assert(tv.skip(0) =~= tv);
    while i < t.len()
        invariant
            i <= t.len(),
            tv == table_view(t@),
            tv == dxcc_table(),
            p@ == upper_seq(trim(prefix@)),
            table_find(tv, p@) == table_find(tv.skip(i as int), p@),
        decreases t.len() - i,
    {
        assert(tv.skip(i as int)[0] == (t@[i as int].0@, t@[i as int].1));
        if chars_eq_str(p.as_slice(), t[i].0) {
            return Some(t[i].1);
        }
        assert(tv.skip(i as int).drop_first() =~= tv.skip(i + 1));
        i = i + 1;
    }
    None
}

} // verus!
