use ibc_core::coin::{prepend_trace_prefix, strip_trace_prefix, Amount, Coin, ProtoCoin};
use ibc_core::errors::TokenTransferError;
use ibc_core::identifier::{ChannelId, PortId};

#[test]
fn test_parse_raw_coin() {
    {
        let coin = Coin::from_str("123stake").unwrap();
        assert_eq!(coin.denom, "stake");
        assert_eq!(coin.amount, Amount::from_u64(123));
    }

    {
        let coin = Coin::from_str("1a1").unwrap();
        assert_eq!(coin.denom, "a1");
        assert_eq!(coin.amount, Amount::from_u64(1));
    }

    {
        let coin = Coin::from_str("0x1/:.\\_-").unwrap();
        assert_eq!(coin.denom, "x1/:.\\_-");
        assert_eq!(coin.amount, Amount::from_u64(0));
    }

    {
        // `!` is not allowed
        let res = Coin::from_str("0x!");
        assert!(res.is_err());
    }
}

#[test]
fn test_parse_raw_coin_list() {
    {
        let coins = Coin::from_string_list("123stake,1a1,999den0m").unwrap();
        assert_eq!(coins.len(), 3);

        assert_eq!(coins[0].denom, "stake");
        assert_eq!(coins[0].amount, Amount::from_u64(123));

        assert_eq!(coins[1].denom, "a1");
        assert_eq!(coins[1].amount, Amount::from_u64(1));

        assert_eq!(coins[2].denom, "den0m");
        assert_eq!(coins[2].amount, Amount::from_u64(999));
    }
}

#[test]
fn coin_list_rejects_bad_segment() {
    assert!(Coin::from_string_list("123stake,,999den0m").is_err());
    assert!(Coin::from_string_list("").is_err());
    assert!(Coin::from_string_list("stake").is_err());
    // The error carries the first failing segment.
    let res = Coin::from_string_list("123stake,0x!,999den0m");
    assert!(matches!(res, Err(TokenTransferError::InvalidCoin { coin }) if coin == "0x!"));
}

#[test]
fn coin_format_parse_round_trip() {
    let coin = Coin::from_str("700uatom").unwrap();
    let formatted = coin.format();
    assert_eq!(formatted, "700uatom");
    let parsed = Coin::from_str(formatted.as_str()).unwrap();
    assert_eq!(parsed, coin);
}

#[test]
fn coin_amount_is_canonicalized() {
    let coin = Coin::from_str("000123stake").unwrap();
    assert_eq!(coin.amount, Amount::from_u64(123));
    // A huge amount is kept exactly, beyond any machine word.
    let coin = Coin::from_str("340282366920938463463374607431768211456stake").unwrap();
    assert_eq!(coin.amount.digits, "340282366920938463463374607431768211456");
}

#[test]
fn proto_coin_round_trip() {
    let proto = ProtoCoin { denom: "stake".to_string(), amount: "0042".to_string() };
    let coin = Coin::try_from_proto(proto).unwrap();
    assert_eq!(coin.denom, "stake");
    assert_eq!(coin.amount, Amount::from_u64(42));
    let back = coin.into_proto();
    assert_eq!(back.denom, "stake");
    assert_eq!(back.amount, "42");

    let bad = ProtoCoin { denom: "stake".to_string(), amount: "12a".to_string() };
    assert!(Coin::try_from_proto(bad).is_err());
}

#[test]
fn denom_trace_prefix_round_trip() {
    let port = PortId::from_str("transfer").unwrap();
    let chan = ChannelId::new(7);
    let prefixed = prepend_trace_prefix(&port, &chan, "uatom");
    assert_eq!(prefixed, "transfer/channel-7/uatom");
    let stripped = strip_trace_prefix(&port, &chan, prefixed.as_str()).unwrap();
    assert_eq!(stripped, "uatom");
    // A denomination from another channel keeps its prefix.
    assert!(strip_trace_prefix(&port, &ChannelId::new(8), prefixed.as_str()).is_none());
    assert!(strip_trace_prefix(&port, &chan, "uatom").is_none());
}
