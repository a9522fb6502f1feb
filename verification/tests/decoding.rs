use live_ticker::adapter::{on_message, Fault, Reaction};
use live_ticker::exchange::binance::Binance;
use live_ticker::exchange::okx::{AskBid, Confirmation, Okx, OkxData};
use live_ticker::exchange::{read_best_level, DecodeError, Exchange};
use live_ticker::number::{is_number, Number};
use live_ticker::quote::Quote;
use serde_json::Value;

fn levels_of(value: &Value) -> Vec<Vec<String>> {
    value
        .as_array()
        .unwrap()
        .iter()
        .map(|level| {
            level
                .as_array()
                .unwrap()
                .iter()
                .map(|text| text.as_str().unwrap().to_string())
                .collect()
        })
        .collect()
}

fn binance_of(json: &str) -> Binance {
    let value: Value = serde_json::from_str(json).unwrap();
    Binance {
        bids: value.get("bids").map(levels_of),
        asks: value.get("asks").map(levels_of),
    }
}

fn okx_of(json: &str) -> OkxData {
    let value: Value = serde_json::from_str(json).unwrap();
    match value.get("data") {
        Some(data) => OkxData::Push {
            data: data
                .as_array()
                .unwrap()
                .iter()
                .map(|entry| AskBid {
                    asks: levels_of(entry.get("asks").unwrap()),
                    bids: levels_of(entry.get("bids").unwrap()),
                })
                .collect(),
        },
        None => OkxData::Response {
            event: value.get("event").unwrap().as_str().unwrap().to_string(),
        },
    }
}

fn level(texts: &[&str]) -> Vec<String> {
    texts.iter().map(|text| text.to_string()).collect()
}

fn value_of(number: &Number) -> f64 {
    number.as_str().parse::<f64>().unwrap()
}

fn assert_quote(quote: &Quote, venue: &str, numbers: [f64; 4]) {
    assert_eq!(quote.venue, venue);
    assert_eq!(value_of(&quote.bid_price), numbers[0]);
    assert_eq!(value_of(&quote.bid_size), numbers[1]);
    assert_eq!(value_of(&quote.ask_price), numbers[2]);
    assert_eq!(value_of(&quote.ask_size), numbers[3]);
}

#[test]
fn parse_json() {
    let json = r#"{
            "lastUpdateId":123456789,
            "bids":[
                ["100.0","10.0"],
                ["90.0","22.0"]
            ],
            "asks":[
                ["100.5","5.1"],
                ["101.23","13.33"]
            ]
        }"#;

    let binance = binance_of(json);
    let Ok(Some(venue)) = Binance::get_l1_data(&binance) else {
        panic!();
    };
    assert_quote(&venue, "binance", [100.0, 10.0, 100.5, 5.1]);
}

#[test]
fn parse_response_json() {
    let json = r#"{"event":"subscribe","arg":{"channel":"books5","instId":"ETH-BTC"},"connId":"b5ceefd8"}"#;

    let decoded = Some(okx_of(json));
    assert_eq!(Okx::check_confirmation(&decoded), Confirmation::Confirmed);
    assert!(matches!(on_message::<OkxData, Okx>(&decoded), Reaction::Skip));
    match decoded.unwrap() {
        OkxData::Response { event } => {
            assert_eq!(event, "subscribe");
            let response = OkxData::Response { event };
            assert!(matches!(Okx::get_l1_data(&response), Ok(None)));
        }
        _ => panic!("data not parsed into Response"),
    }
}

#[test]
fn parse_push_json() {
    let json = r#"{
            "arg":{"channel":"books5","instId":"ETH-BTC"},
            "data":[
                {
                    "asks":[
                        ["100.5","5.1","0","1"],
                        ["101.23","13.33","0","2"]
                    ],
                    "bids":[
                        ["100.0","10.0","0","9"],
                        ["90.0","22.0","0","8"]
                    ],
                    "instId":"ETH-BTC",
                    "ts":"1700582054108",
                    "seqId":1062841525
                }
            ]
        }"#;

    let okx = okx_of(json);
    let Ok(Some(venue)) = Okx::get_l1_data(&okx) else {
        panic!();
    };
    assert_quote(&venue, "okx", [100.0, 10.0, 100.5, 5.1]);
}

#[test]
fn quote_keeps_the_text_of_each_number() {
    let binance = Binance {
        bids: Some(vec![level(&["100.0", "10.0"]), level(&["x", "y"])]),
        asks: Some(vec![level(&["100.5", "5.1"])]),
    };
    let quote = Binance::get_l1_data(&binance).unwrap().unwrap();
    assert_eq!(quote.venue, "binance");
    assert_eq!(quote.bid_price.as_str(), "100.0");
    assert_eq!(quote.bid_size.as_str(), "10.0");
    assert_eq!(quote.ask_price.as_str(), "100.5");
    assert_eq!(quote.ask_size.as_str(), "5.1");
}

#[test]
fn new_message_has_neither_side() {
    let empty = Binance::new();
    assert!(empty.bids.is_none());
    assert!(empty.asks.is_none());
    let quote = Binance::get_l1_data(&empty).unwrap().unwrap();
    assert_quote(&quote, "binance", [0.0, 0.0, 0.0, 0.0]);
    assert_eq!(quote.bid_price.as_str(), "0");
}

#[test]
fn missing_side_is_zero() {
    let only_bids = Binance { bids: Some(vec![level(&["7.5", "2"])]), asks: None };
    let quote = Binance::get_l1_data(&only_bids).unwrap().unwrap();
    assert_quote(&quote, "binance", [7.5, 2.0, 0.0, 0.0]);

    let only_asks = Binance { bids: None, asks: Some(vec![level(&["8.5", "3"])]) };
    let quote = Binance::get_l1_data(&only_asks).unwrap().unwrap();
    assert_quote(&quote, "binance", [0.0, 0.0, 8.5, 3.0]);
}

#[test]
fn malformed_number_is_rejected() {
    let bad_price = Binance {
        bids: Some(vec![level(&["abc", "10.0"])]),
        asks: Some(vec![level(&["100.5", "5.1"])]),
    };
    assert_eq!(Binance::get_l1_data(&bad_price).unwrap_err(), DecodeError::MalformedNumber);

    let bad_ask_size = Binance {
        bids: Some(vec![level(&["100.0", "10.0"])]),
        asks: Some(vec![level(&["100.5", "5,1"])]),
    };
    assert_eq!(Binance::get_l1_data(&bad_ask_size).unwrap_err(), DecodeError::MalformedNumber);

    let bad_bid_price = OkxData::Push {
        data: vec![AskBid {
            asks: vec![level(&["100.5", "5.1", "0", "1"])],
            bids: vec![level(&["", "10.0", "0", "9"])],
        }],
    };
    assert_eq!(Okx::get_l1_data(&bad_bid_price).unwrap_err(), DecodeError::MalformedNumber);
}

#[test]
fn order_count_and_level_are_ignored() {
    let push = OkxData::Push {
        data: vec![AskBid {
            asks: vec![level(&["100.5", "5.1", "many", "first"])],
            bids: vec![level(&["100.0", "10.0", "", "-"])],
        }],
    };
    let quote = Okx::get_l1_data(&push).unwrap().unwrap();
    assert_quote(&quote, "okx", [100.0, 10.0, 100.5, 5.1]);
}

#[test]
fn absent_field_is_rejected() {
    let no_level = Binance { bids: Some(vec![]), asks: None };
    assert_eq!(Binance::get_l1_data(&no_level).unwrap_err(), DecodeError::MissingField);

    let no_size = Binance { bids: None, asks: Some(vec![level(&["1.0"])]) };
    assert_eq!(Binance::get_l1_data(&no_size).unwrap_err(), DecodeError::MissingField);

    let empty_level = OkxData::Push {
        data: vec![AskBid { asks: vec![level(&["1", "2"])], bids: vec![level(&[])] }],
    };
    assert_eq!(Okx::get_l1_data(&empty_level).unwrap_err(), DecodeError::MissingField);
}

#[test]
fn first_fault_decides_the_error() {
    // A best level that is too short and holds no number: the size is missed first.
    let short_and_bad = Binance { bids: Some(vec![level(&["x"])]), asks: None };
    assert_eq!(Binance::get_l1_data(&short_and_bad).unwrap_err(), DecodeError::MissingField);

    // Bids are read before asks.
    let both = Binance { bids: Some(vec![]), asks: Some(vec![level(&["x", "1"])]) };
    assert_eq!(Binance::get_l1_data(&both).unwrap_err(), DecodeError::MissingField);

    // Asks are read before bids.
    let both = OkxData::Push {
        data: vec![AskBid { asks: vec![level(&["x", "1"])], bids: vec![] }],
    };
    assert_eq!(Okx::get_l1_data(&both).unwrap_err(), DecodeError::MalformedNumber);
}

#[test]
fn read_best_level_takes_first_two_of_first_level() {
    let levels = vec![level(&["3.25", "4", "5", "6"]), level(&["9", "9"])];
    let (price, size) = read_best_level(&levels).unwrap();
    assert_eq!(price.as_str(), "3.25");
    assert_eq!(size.as_str(), "4");
    assert_eq!(read_best_level(&vec![]).unwrap_err(), DecodeError::MissingField);
}

#[test]
fn push_uses_first_entry_only() {
    let push = OkxData::Push {
        data: vec![
            AskBid {
                asks: vec![level(&["2.5", "1.5", "7", "1"]), level(&["bad"])],
                bids: vec![level(&["2.0", "3.0", "8", "1"])],
            },
            AskBid { asks: vec![], bids: vec![level(&["nothing"])] },
        ],
    };
    let quote = Okx::get_l1_data(&push).unwrap().unwrap();
    assert_quote(&quote, "okx", [2.0, 3.0, 2.5, 1.5]);
}

#[test]
fn push_without_entries_holds_no_quote() {
    let push = OkxData::Push { data: vec![] };
    assert!(Okx::get_l1_data(&push).unwrap().is_none());
}

#[test]
fn response_never_yields_a_quote() {
    for event in ["subscribe", "error", "", "100.0"] {
        let response = OkxData::Response { event: event.to_string() };
        assert!(Okx::get_l1_data(&response).unwrap().is_none());
        assert!(matches!(on_message::<OkxData, Okx>(&Some(response)), Reaction::Skip));
    }
}

#[test]
fn confirmation_is_judged() {
    let confirmed = Some(OkxData::Response { event: "subscribe".to_string() });
    assert_eq!(Okx::check_confirmation(&confirmed), Confirmation::Confirmed);
    let other = Some(OkxData::Response { event: "error".to_string() });
    assert_eq!(Okx::check_confirmation(&other), Confirmation::Unexpected);
    let capital = Some(OkxData::Response { event: "Subscribe".to_string() });
    assert_eq!(Okx::check_confirmation(&capital), Confirmation::Unexpected);
    let push = Some(OkxData::Push { data: vec![] });
    assert_eq!(Okx::check_confirmation(&push), Confirmation::Unexpected);
    assert_eq!(Okx::check_confirmation(&None), Confirmation::Unparsed);
}

#[test]
fn reaction_to_each_outcome() {
    let good = Binance { bids: Some(vec![level(&["1", "2"])]), asks: Some(vec![level(&["3", "4"])]) };
    match on_message::<Binance, Binance>(&Some(good)) {
        Reaction::Emit(quote) => assert_quote(&quote, "binance", [1.0, 2.0, 3.0, 4.0]),
        other => panic!("{:?}", other),
    }
    let bad = Binance { bids: Some(vec![level(&["1", "two"])]), asks: None };
    assert!(matches!(
        on_message::<Binance, Binance>(&Some(bad)),
        Reaction::Report(Fault::Rejected(DecodeError::MalformedNumber))
    ));
    let short = Binance { bids: Some(vec![]), asks: None };
    assert!(matches!(
        on_message::<Binance, Binance>(&Some(short)),
        Reaction::Report(Fault::Rejected(DecodeError::MissingField))
    ));
    assert!(matches!(on_message::<Binance, Binance>(&None), Reaction::Report(Fault::Unparsed)));
    assert!(matches!(on_message::<OkxData, Okx>(&None), Reaction::Report(Fault::Unparsed)));
}

#[test]
fn error_messages() {
    assert_eq!(DecodeError::MalformedNumber.message(), "failed to parse string into float");
    assert_eq!(DecodeError::MissingField.message(), "expected field is absent");
}

#[test]
fn stream_url_names_the_pair() {
    assert_eq!(
        Binance::stream_url("ethusdt"),
        "wss://stream.binance.com:9443/ws/ethusdt@depth10@100ms"
    );
    assert_eq!(Binance::stream_url(""), "wss://stream.binance.com:9443/ws/@depth10@100ms");
}

#[test]
fn subscription_names_the_pair() {
    assert_eq!(Okx::endpoint(), "wss://ws.okx.com:8443/ws/v5/public");
    let command = Okx::subscription("ETH-USDT");
    assert_eq!(
        command,
        r#"{"op": "subscribe","args": [{"channel": "books5","instId": "ETH-USDT"}]}"#
    );
    let value: Value = serde_json::from_str(&command).unwrap();
    assert_eq!(value.get("op").unwrap().as_str().unwrap(), "subscribe");
}

#[test]
fn number_literals_are_those_that_parse() {
    let texts = [
        "0", "100.0", "5.1", "13.33", "1700582054108", "1.", ".5", "+1.5", "-0.25", "1e5",
        "1E5", "1e+5", "1.5e-3", ".5E10", "5.e2", "00012", "inf", "INF", "-inf", "+Infinity",
        "infinity", "nan", "NaN", "-nan", "", "+", "-", ".", "+.", "e5", ".e5", "1e", "1e+",
        "1e-", "1e5.0", "1.2.3", "1..2", "--1", "+-1", " 1", "1 ", "1,5", "abc", "0x10", "1_000",
        "in", "infinit", "infinityy", "nanx", "1f", "1d", "١", "1é", "é", "1e5e5", "1ee5",
        "+inf ", "i", "n", "12345678901234567890123456789.123456789e-400",
    ];
    for text in texts {
        assert_eq!(is_number(text), text.parse::<f64>().is_ok(), "{:?}", text);
        assert_eq!(Number::parse(text).is_some(), is_number(text), "{:?}", text);
    }
}

#[test]
fn number_keeps_its_text() {
    let number = Number::parse("100.50").unwrap();
    assert_eq!(number.as_str(), "100.50");
    assert_eq!(number.duplicate().as_str(), "100.50");
    assert_eq!(Number::zero().as_str(), "0");
    assert!(Number::parse("12x").is_none());
    assert!(is_number("100.5"));
    assert!(!is_number("100,5"));
}

#[test]
fn number_literals_agree_with_the_standard_parser() {
    let alphabet: Vec<char> = "0123456789+-.eEinfatyINFATY x,_)".chars().collect();
    let mut state: u64 = 0x2545_f491_4f6c_dd1d;
    let mut accepted = 0;
    for _ in 0..300_000 {
        let mut next = || {
            state ^= state << 13;
            state ^= state >> 7;
            state ^= state << 17;
            state
        };
        let length = (next() % 9) as usize;
        let text: String = (0..length)
            .map(|_| {
                let pick = next() % 64;
                // Digits, signs, the point and the exponent letters come up most often.
                if pick < 40 {
                    alphabet[(pick % 14) as usize]
                } else {
                    alphabet[(pick as usize) % alphabet.len()]
                }
            })
            .collect();
        let expected = text.parse::<f64>().is_ok();
        assert_eq!(is_number(&text), expected, "{:?}", text);
        if expected {
            accepted += 1;
        }
    }
    assert!(accepted > 1000);
    for word in ["inf", "nan", "infinity"] {
        for mask in 0..(1u32 << word.len()) {
            let text: String = word
                .chars()
                .enumerate()
                .map(|(i, c)| if mask & (1 << i) != 0 { c.to_ascii_uppercase() } else { c })
                .collect();
            assert!(is_number(&text), "{:?}", text);
            assert!(is_number(&format!("-{}", text)), "{:?}", text);
            assert!(!is_number(&format!("{}0", text)), "{:?}", text);
        }
    }
}
