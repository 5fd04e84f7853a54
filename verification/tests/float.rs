use lanewise::float::{Cmp, Noise, Order, ORDER_BIT, RESULT_BIT, SIGNAL_BIT};

fn table() -> Vec<(Cmp, i32, &'static str, &'static str)> {
    vec![
        (Cmp::EQ, 0x00, "_CMP_EQ_OQ", " Equal (ordered, quiet)"),
        (Cmp::EQ_LOUD, 0x10, "_CMP_EQ_OS", " Equal (ordered, loud)"),
        (Cmp::EQ_UNORD, 0x08, "_CMP_EQ_UQ", " Equal (unordered, quiet)"),
        (Cmp::EQ_UNORD_LOUD, 0x18, "_CMP_EQ_US", " Equal (unordered, loud)"),
        (Cmp::NEQ, 0x0c, "_CMP_NEQ_OQ", " Not-equal (ordered, quiet)"),
        (Cmp::NEQ_LOUD, 0x1c, "_CMP_NEQ_OS", " Not-equal (ordered, loud)"),
        (Cmp::NEQ_UNORD, 0x04, "_CMP_NEQ_UQ", " Not-equal (unordered, quiet)"),
        (Cmp::NEQ_UNORD_LOUD, 0x14, "_CMP_NEQ_US", " Not-equal (unordered, loud)"),
        (Cmp::GE, 0x1d, "_CMP_GE_OQ", " Greater-than-or-equal (ordered, quiet)"),
        (Cmp::GE_LOUD, 0x0d, "_CMP_GE_OS", " Greater than-or-equal (ordered, loud)"),
        (Cmp::NGE, 0x19, "_CMP_NGE_UQ", " Not-greater-than-or-equal (unordered, quiet)"),
        (Cmp::NGE_LOUD, 0x09, "_CMP_NGE_US", " Not-greater-than-or-equal (unordered, loud)"),
        (Cmp::GT, 0x1e, "_CMP_GT_OQ", " Greater-than (ordered, quiet)"),
        (Cmp::GT_LOUD, 0x0e, "_CMP_GT_OS", " Greater-than (ordered, loud)"),
        (Cmp::NGT, 0x1a, "_CMP_NGT_UQ", " Not-greater-than (unordered, quiet)"),
        (Cmp::NGT_LOUD, 0x0a, "_CMP_NGT_US", " Not-greater-than (unordered, loud)"),
        (Cmp::LE, 0x12, "_CMP_LE_OQ", " Less-than-or-equal (ordered, quiet)"),
        (Cmp::LE_LOUD, 0x02, "_CMP_LE_OS", " Less-than-or-equal (ordered, loud)"),
        (Cmp::NLE, 0x16, "_CMP_NLE_UQ", " Not-less-than-or-equal (unordered, quiet)"),
        (Cmp::NLE_LOUD, 0x06, "_CMP_NLE_US", " Not-less-than-or-equal (unordered, loud)"),
        (Cmp::LT, 0x11, "_CMP_LT_OQ", " Less-than (ordered, quiet)"),
        (Cmp::LT_LOUD, 0x01, "_CMP_LT_OS", " Less-than (ordered, loud)"),
        (Cmp::NLT, 0x15, "_CMP_NLT_UQ", " Not-less-than (unordered, quiet)"),
        (Cmp::NLT_LOUD, 0x05, "_CMP_NLT_US", " Not-less-than (unordered, loud)"),
        (Cmp::TRUE, 0x0f, "_CMP_TRUE_UQ", " True (unordered, quiet)"),
        (Cmp::TRUE_LOUD, 0x1f, "_CMP_TRUE_US", " True (unordered, loud)"),
        (Cmp::FALSE, 0x0b, "_CMP_FALSE_OQ", " False (ordered, quiet)"),
        (Cmp::FALSE_LOUD, 0x1b, "_CMP_FALSE_OS", " False (ordered, loud)"),
        (Cmp::ORD, 0x07, "_CMP_ORD_Q", " Ordered (quiet)"),
        (Cmp::ORD_LOUD, 0x17, "_CMP_ORD_S", " Ordered (loud)"),
        (Cmp::UNORD, 0x03, "_CMP_UNORD_Q", " Unordered (quiet)"),
        (Cmp::UNORD_LOUD, 0x13, "_CMP_UNORD_S", " Unordered (loud)"),
    ]
}

/// What a predicate answers on (less, equal, greater, unordered), read off its C name.
fn answers(c_name: &str) -> [bool; 4] {
    let name = c_name.strip_prefix("_CMP_").unwrap();
    let core = name.rsplit_once('_').unwrap().0;
    match core {
        "EQ" if name.starts_with("EQ_U") => [false, true, false, true],
        "EQ" => [false, true, false, false],
        "NEQ" if name.starts_with("NEQ_U") => [true, false, true, true],
        "NEQ" => [true, false, true, false],
        "LT" => [true, false, false, false],
        "LE" => [true, true, false, false],
        "GT" => [false, false, true, false],
        "GE" => [false, true, true, false],
        "NLT" => [false, true, true, true],
        "NLE" => [false, false, true, true],
        "NGT" => [true, true, false, true],
        "NGE" => [true, false, false, true],
        "TRUE" => [true, true, true, true],
        "FALSE" => [false, false, false, false],
        "ORD" => [true, true, true, false],
        "UNORD" => [false, false, false, true],
        other => panic!("{}", other),
    }
}

fn by_c_name(c_name: &str) -> Cmp {
    table().into_iter().find(|row| row.2 == c_name).unwrap().0
}

/// The predicate with the given answers and noise.
fn with_answers(wanted: [bool; 4], noise: Noise) -> Cmp {
    let found: Vec<Cmp> = table()
        .into_iter()
        .filter(|row| answers(row.2) == wanted && row.0.noise() == noise)
        .map(|row| row.0)
        .collect();
    assert_eq!(found.len(), 1);
    found[0]
}

#[test]
fn codes_and_names() {
    let rows = table();
    assert_eq!(rows.len(), 32);
    for (pred, code, c_name, description) in rows {
        assert_eq!(pred.to_i32(), code);
        assert_eq!(Cmp::from_i32(code), Some(pred));
        assert_eq!(pred.c_name(), c_name);
        assert_eq!(pred.c_name_stripped(), &c_name[5..]);
        assert_eq!(format!("_CMP_{}", pred.c_name_stripped()), pred.c_name());
        assert_eq!(pred.description(), description);
        assert_eq!(pred.name(), "Cmp");
    }
}

#[test]
fn codes_of_some_predicates() {
    assert_eq!(Cmp::EQ.to_i32(), 0);
    assert_eq!(Cmp::LT_LOUD.to_i32(), 1);
    assert_eq!(Cmp::LE_LOUD.to_i32(), 2);
    assert_eq!(Cmp::UNORD.to_i32(), 3);
    assert_eq!(Cmp::NEQ_UNORD.to_i32(), 4);
    assert_eq!(Cmp::ORD.to_i32(), 7);
    assert_eq!(Cmp::FALSE.to_i32(), 11);
    assert_eq!(Cmp::TRUE.to_i32(), 15);
    assert_eq!(Cmp::EQ_LOUD.to_i32(), 16);
    assert_eq!(Cmp::LT.to_i32(), 17);
    assert_eq!(Cmp::GE.to_i32(), 29);
    assert_eq!(Cmp::GT.to_i32(), 30);
    assert_eq!(Cmp::TRUE_LOUD.to_i32(), 31);
    assert_eq!(Cmp::EQ.c_name(), "_CMP_EQ_OQ");
    assert_eq!(Cmp::GE_LOUD.c_name(), "_CMP_GE_OS");
    assert_eq!(Cmp::NLT.c_name_stripped(), "NLT_UQ");
    assert_eq!(Cmp::ORD_LOUD.c_name_stripped(), "ORD_S");
    assert_eq!(Cmp::EQ.description(), " Equal (ordered, quiet)");
}

#[test]
fn integers_that_are_no_code() {
    assert_eq!(Cmp::from_i32(-1), None);
    assert_eq!(Cmp::from_i32(32), None);
    assert_eq!(Cmp::from_i32(i32::MIN), None);
    assert_eq!(Cmp::from_i32(i32::MAX), None);
    for code in 0..32 {
        assert_eq!(Cmp::from_i32(code).unwrap().to_i32(), code);
    }
}

#[test]
fn noise_is_told_by_the_name() {
    for (pred, _, c_name, _) in table() {
        let loud = c_name.ends_with('S');
        assert_eq!(pred.noise(), if loud { Noise::Loud } else { Noise::Quiet });
        assert_eq!(pred.noise().is_loud(), loud);
        assert_eq!(pred.noise().is_quiet(), !loud);
    }
    assert_eq!(Cmp::EQ.noise(), Noise::Quiet);
    assert_eq!(Cmp::EQ_LOUD.noise(), Noise::Loud);
    assert_eq!(Cmp::LT.noise(), Noise::Quiet);
    assert_eq!(Cmp::LT_LOUD.noise(), Noise::Loud);
    assert_eq!(Noise::default(), Noise::Quiet);
}

#[test]
fn order_is_the_answer_on_a_nan() {
    for (pred, _, c_name, _) in table() {
        let on_nan = answers(c_name)[3];
        assert_eq!(pred.order(), if on_nan { Order::Unorderd } else { Order::Ordered });
        assert_eq!(pred.order().is_unordered(), on_nan);
        assert_eq!(pred.order().is_ordered(), !on_nan);
    }
    assert_eq!(Cmp::GE.order(), Order::Ordered);
    assert_eq!(Cmp::NGE.order(), Order::Unorderd);
    assert_eq!(Cmp::TRUE.order(), Order::Unorderd);
    assert_eq!(Cmp::FALSE.order(), Order::Ordered);
    assert_eq!(Cmp::ORD.order(), Order::Ordered);
    assert_eq!(Cmp::UNORD.order(), Order::Unorderd);
    assert_eq!(Order::default(), Order::Ordered);
}

#[test]
fn inverse_negates_every_answer() {
    for (pred, code, c_name, _) in table() {
        let inv = pred.inverse();
        assert_eq!(inv.to_i32(), code ^ RESULT_BIT);
        let [l, e, g, u] = answers(c_name);
        assert_eq!(answers(inv.c_name()), [!l, !e, !g, !u]);
        assert_eq!(inv, with_answers([!l, !e, !g, !u], pred.noise()));
        assert_eq!(inv.noise(), pred.noise());
        assert_eq!(inv.inverse(), pred);
    }
    assert_eq!(Cmp::EQ.inverse(), Cmp::NEQ_UNORD);
    assert_eq!(Cmp::GE.inverse(), Cmp::NGE);
    assert_eq!(Cmp::LT_LOUD.inverse(), Cmp::NLT_LOUD);
    assert_eq!(Cmp::TRUE.inverse(), Cmp::FALSE);
    assert_eq!(Cmp::ORD_LOUD.inverse(), Cmp::UNORD_LOUD);
}

#[test]
fn inverse_order_flips_the_answer_on_a_nan_only() {
    for (pred, code, c_name, _) in table() {
        let inv = pred.inverse_order();
        assert_eq!(inv.to_i32(), code ^ ORDER_BIT);
        let [l, e, g, u] = answers(c_name);
        assert_eq!(answers(inv.c_name()), [l, e, g, !u]);
        assert_eq!(inv.noise(), pred.noise());
        assert_ne!(inv.order(), pred.order());
        assert_eq!(inv.inverse_order(), pred);
    }
    assert_eq!(Cmp::EQ.inverse_order(), Cmp::EQ_UNORD);
    assert_eq!(Cmp::LT.inverse_order(), Cmp::NGE);
    assert_eq!(Cmp::UNORD.inverse_order(), Cmp::FALSE);
    assert_eq!(Cmp::ORD.inverse_order(), Cmp::TRUE);
}

#[test]
fn inverse_noise_flips_the_noise_only() {
    for (pred, code, c_name, _) in table() {
        let inv = pred.inverse_noise();
        assert_eq!(inv.to_i32(), code ^ SIGNAL_BIT);
        assert_eq!(answers(inv.c_name()), answers(c_name));
        assert_ne!(inv.noise(), pred.noise());
        assert_eq!(inv.order(), pred.order());
        assert_eq!(inv.inverse_noise(), pred);
    }
    assert_eq!(Cmp::EQ.inverse_noise(), Cmp::EQ_LOUD);
    assert_eq!(Cmp::GT_LOUD.inverse_noise(), Cmp::GT);
    assert_eq!(Cmp::NLE.inverse_noise(), Cmp::NLE_LOUD);
}

#[test]
fn reverse_negates_on_ordered_operands_and_keeps_the_order() {
    for (pred, code, c_name, _) in table() {
        let rev = pred.reverse();
        assert_eq!(rev.to_i32(), code ^ RESULT_BIT ^ ORDER_BIT);
        let [l, e, g, u] = answers(c_name);
        assert_eq!(answers(rev.c_name()), [!l, !e, !g, u]);
        assert_eq!(rev.order(), pred.order());
        assert_eq!(rev.noise(), pred.noise());
        assert_eq!(rev, pred.inverse().inverse_order());
        assert_eq!(rev.reverse(), pred);
    }
    assert_eq!(Cmp::LT.reverse(), Cmp::GE);
    assert_eq!(Cmp::LE_LOUD.reverse(), Cmp::GT_LOUD);
    assert_eq!(Cmp::EQ.reverse(), Cmp::NEQ);
    assert_eq!(Cmp::NGE.reverse(), Cmp::NLT);
    assert_eq!(Cmp::ORD.reverse(), Cmp::FALSE);
    assert_eq!(Cmp::TRUE.reverse(), Cmp::UNORD);
}

#[test]
fn kinds_of_predicates() {
    for (pred, _, c_name, _) in table() {
        let name = pred.c_name_stripped();
        let kind = name.rsplit_once('_').unwrap().0;
        assert_eq!(pred.is_eq(), kind == "EQ", "{}", c_name);
        assert_eq!(pred.is_neq(), kind == "NEQ");
        assert_eq!(pred.is_ge(), kind == "GE");
        assert_eq!(pred.is_nge(), kind == "NGE");
        assert_eq!(pred.is_gt(), kind == "GT");
        assert_eq!(pred.is_ngt(), kind == "NGT");
        assert_eq!(pred.is_le(), kind == "LE");
        assert_eq!(pred.is_nle(), kind == "NLE");
        assert_eq!(pred.is_lt(), kind == "LT");
        assert_eq!(pred.is_nlt(), kind == "NLT");
        assert_eq!(pred.is_false(), kind == "FALSE");
        assert_eq!(pred.is_true(), kind == "TRUE");
        assert_eq!(pred.is_ord(), kind == "ORD");
        assert_eq!(pred.is_unord(), kind == "UNORD");
    }
    assert!(Cmp::EQ_UNORD_LOUD.is_eq());
    assert!(Cmp::NEQ_UNORD.is_neq());
    assert!(!Cmp::NEQ.is_eq());
    assert!(Cmp::GE_LOUD.is_ge());
    assert!(!Cmp::NLT.is_ge());
    assert!(Cmp::NLT.is_nlt());
}

#[test]
fn c_names_tell_what_the_names_tell() {
    assert_eq!(by_c_name("_CMP_NGT_US"), Cmp::NGT_LOUD);
    assert_eq!(by_c_name("_CMP_UNORD_Q"), Cmp::UNORD);
    assert_eq!(with_answers([false, true, true, false], Noise::Quiet), Cmp::GE);
    assert_eq!(with_answers([true, false, false, true], Noise::Loud), Cmp::NGE_LOUD);
}
