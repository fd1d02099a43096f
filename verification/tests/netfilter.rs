use lupos_net::errno::EINVAL;
use lupos_net::netfilter::xt_string::{
    string_mt, string_mt_check, string_mt_destroy, string_mt_init, XtStringInfo, MODULE_AUTHOR,
    TS_AUTOLOAD, TS_IGNORECASE, XT_STRING_FLAG_IGNORECASE, XT_STRING_FLAG_INVERT,
    XT_STRING_MAX_ALGO_NAME_SIZE, XT_STRING_MAX_PATTERN_SIZE,
};
use lupos_net::netfilter::xt_tcpmss::{
    tcpmss_mt, tcpmss_mt_init, XtActionParam, XtTcpmssMatchInfo, NFPROTO_IPV4, NFPROTO_IPV6,
    TCPOPT_MSS, TCP_HEADER_LEN,
};
use lupos_net::netfilter::xt_trace::{
    trace_tg, trace_tg_check, trace_tg_destroy, trace_tg_init, TraceSkb, MODULE_DESCRIPTION,
    MODULE_SOFTDEP, NF_LOG_TYPE_LOG, XT_CONTINUE,
};
use lupos_net::netfilter::xt_u32::{
    u32_match_it, u32_mt, u32_mt_checkentry, u32_mt_init, XtU32, XtU32LocationElement,
    XtU32ValueElement, XT_U32_ARRAY_LEN, XT_U32_AT, XT_U32_MAXSIZE, XT_U32_RIGHTSH,
};

#[test]
fn xt_string_matches_linux_source() {
    assert_eq!(MODULE_AUTHOR, "Pablo Neira Ayuso <pablo@eurodev.net>");
    let reg = string_mt_init();
    assert_eq!(reg.name, "string");
    assert_eq!(reg.revision, 1);
    assert_eq!(reg.matchsize, core::mem::size_of::<XtStringInfo>());
    assert_eq!(XT_STRING_FLAG_IGNORECASE | XT_STRING_FLAG_INVERT, 0x03);
}

#[test]
fn string_match_validates_config_and_searches_offsets() {
    let mut algo = [0u8; XT_STRING_MAX_ALGO_NAME_SIZE];
    algo[..2].copy_from_slice(b"bm");
    let mut conf = XtStringInfo {
        from_offset: 1,
        to_offset: 8,
        algo,
        pattern: b"Needle".to_vec(),
        flags: XT_STRING_FLAG_IGNORECASE,
        config_prepared: false,
    };
    assert_eq!(string_mt_check(&mut conf, true), Ok(TS_AUTOLOAD | TS_IGNORECASE));
    assert!(conf.config_prepared);
    assert!(string_mt(b"--needle--", &conf));
    conf.flags |= XT_STRING_FLAG_INVERT;
    assert!(!string_mt(b"--needle--", &conf));
    string_mt_destroy(&mut conf);
    assert!(!conf.config_prepared);

    let mut invalid = conf.clone();
    invalid.from_offset = 9;
    invalid.to_offset = 1;
    assert_eq!(string_mt_check(&mut invalid, true), Err(-EINVAL));
    invalid.from_offset = 0;
    invalid.to_offset = 10;
    invalid.pattern = vec![0; XT_STRING_MAX_PATTERN_SIZE + 1];
    assert_eq!(string_mt_check(&mut invalid, true), Err(-EINVAL));
    let reg = string_mt_init();
    assert_eq!((reg.name, reg.revision, reg.family), ("string", 1, 0));
}

#[test]
fn string_match_case_sensitivity_and_window_edges() {
    let mut conf = XtStringInfo {
        from_offset: 2,
        to_offset: 8,
        algo: [0; XT_STRING_MAX_ALGO_NAME_SIZE],
        pattern: b"Needle".to_vec(),
        flags: 0,
        config_prepared: false,
    };
    // Case-sensitive search misses the lower-case text.
    assert!(!string_mt(b"--needle--", &conf));
    // The window [2, 8) holds exactly the six bytes of the pattern.
    assert!(string_mt(b"--Needle--", &conf));
    // One byte less of window and the pattern no longer fits.
    conf.to_offset = 7;
    assert!(!string_mt(b"--Needle--", &conf));
    // An empty pattern never matches.
    conf.pattern.clear();
    conf.to_offset = 10;
    assert!(!string_mt(b"--Needle--", &conf));
    // Unknown flag bits and a non-terminated algorithm name are rejected.
    let mut bad = conf.clone();
    bad.flags = 0x04;
    assert_eq!(string_mt_check(&mut bad, true), Err(-EINVAL));
    let mut bad = conf.clone();
    bad.algo[XT_STRING_MAX_ALGO_NAME_SIZE - 1] = b'x';
    assert_eq!(string_mt_check(&mut bad, true), Err(-EINVAL));
    let mut ok = conf.clone();
    assert_eq!(string_mt_check(&mut ok, false), Err(-EINVAL));
    assert!(!ok.config_prepared);
    assert_eq!(string_mt_check(&mut ok, true), Ok(TS_AUTOLOAD));
}

fn tcp_header_with_options(options: &[u8]) -> [u8; 60] {
    let mut tcp = [0u8; 60];
    let len = TCP_HEADER_LEN + options.len();
    tcp[12] = ((len / 4) as u8) << 4;
    tcp[TCP_HEADER_LEN..TCP_HEADER_LEN + options.len()].copy_from_slice(options);
    tcp
}

#[test]
fn xt_tcpmss_matches_linux_source() {
    let regs = tcpmss_mt_init();
    assert_eq!(regs[0].name, "tcpmss");
    assert_eq!(regs[0].family, NFPROTO_IPV4);
    assert_eq!(regs[1].family, NFPROTO_IPV6);
    assert_eq!(regs[0].proto, 6);
    assert_eq!(regs[0].matchsize, core::mem::size_of::<XtTcpmssMatchInfo>());
}

#[test]
fn tcpmss_scans_options_and_hotdrops_truncation() {
    let info = XtTcpmssMatchInfo { mss_min: 1200, mss_max: 1460, invert: false };
    let tcp = tcp_header_with_options(&[1, TCPOPT_MSS, 4, 0x05, 0xb4, 0, 0, 0]);
    let mut par = XtActionParam::default();
    assert!(tcpmss_mt(&tcp, &mut par, info));
    assert!(!par.hotdrop);

    let mut par = XtActionParam::default();
    assert!(!tcpmss_mt(&tcp[..22], &mut par, info));
    assert!(par.hotdrop);

    let mut par = XtActionParam { fragoff: true, ..XtActionParam::default() };
    assert!(!tcpmss_mt(&tcp, &mut par, info));
    assert!(!par.hotdrop);

    let no_options = tcp_header_with_options(&[]);
    assert!(!tcpmss_mt(&no_options, &mut XtActionParam::default(), info));
    assert!(tcpmss_mt(
        &no_options,
        &mut XtActionParam::default(),
        XtTcpmssMatchInfo { invert: true, ..info }
    ));
    assert_eq!(tcpmss_mt_init()[1].name, "tcpmss");
}

#[test]
fn tcpmss_out_of_range_and_bad_data_offset() {
    let info = XtTcpmssMatchInfo { mss_min: 1200, mss_max: 1400, invert: false };
    // MSS 1460 lies above the range.
    let tcp = tcp_header_with_options(&[TCPOPT_MSS, 4, 0x05, 0xb4]);
    assert!(!tcpmss_mt(&tcp, &mut XtActionParam::default(), info));
    assert!(tcpmss_mt(&tcp, &mut XtActionParam::default(), XtTcpmssMatchInfo { invert: true, ..info }));
    // A data offset below the fixed header drops the packet.
    let mut short = [0u8; 20];
    short[12] = 4 << 4;
    let mut par = XtActionParam::default();
    assert!(!tcpmss_mt(&short, &mut par, info));
    assert!(par.hotdrop);
    // Options announced but missing from the packet drop it too.
    let mut truncated = [0u8; 24];
    truncated[12] = 8 << 4;
    let mut par = XtActionParam::default();
    assert!(!tcpmss_mt(&truncated, &mut par, info));
    assert!(par.hotdrop);
}

#[test]
fn xt_trace_matches_linux_source() {
    assert_eq!(MODULE_DESCRIPTION, "Xtables: packet flow tracing");
    assert_eq!(MODULE_SOFTDEP, "pre: nf_log_syslog");
    let mut skb = TraceSkb::default();
    assert_eq!(trace_tg(&mut skb), XT_CONTINUE);
    assert!(skb.nf_trace);
    assert_eq!(trace_tg_destroy(NFPROTO_IPV4), (NFPROTO_IPV4, NF_LOG_TYPE_LOG));
    assert_eq!(trace_tg_init().len(), 2);
    assert_eq!(trace_tg_init()[0].table, "raw");
    assert_eq!(trace_tg_check(-2), -2);
}

fn one_test() -> XtU32 {
    let mut data = XtU32 { ntests: 1, ..XtU32::default() };
    data.tests[0].location[0].number = 0;
    data.tests[0].location[1] = XtU32LocationElement { number: 28, nextop: XT_U32_RIGHTSH };
    data.tests[0].value[0] = XtU32ValueElement { min: 4, max: 4 };
    data.tests[0].nnums = 2;
    data.tests[0].nvalues = 1;
    data
}

#[test]
fn xt_u32_matches_linux_source() {
    assert_eq!(XT_U32_MAXSIZE, 10);
    let reg = u32_mt_init();
    assert_eq!(reg.name, "u32");
    assert_eq!(reg.family, 0);
    assert_eq!(reg.match_fn, "u32_mt");
    assert_eq!(reg.checkentry, "u32_mt_checkentry");
}

#[test]
fn u32_match_reads_network_order_words_and_applies_ops() {
    let data = one_test();
    let skb = [0x45, 0, 0, 0, 0, 0, 0, 0];
    assert!(u32_match_it(&data, &skb));
    assert!(u32_mt(&skb, &data));
    assert!(!u32_mt(&skb, &XtU32 { invert: 1, ..data }));
    assert!(u32_mt(&skb, &XtU32 { invert: 2, ..data }));
    assert_eq!(u32_mt_checkentry(&data), Ok(()));
}

#[test]
fn u32_at_checks_overflow_bounds_and_checkentry_limits() {
    let mut data = XtU32 { ntests: 1, ..XtU32::default() };
    data.tests[0].location[0].number = 0;
    data.tests[0].location[1] = XtU32LocationElement { number: 0, nextop: XT_U32_AT };
    data.tests[0].value[0] = XtU32ValueElement { min: 1, max: 1 };
    data.tests[0].nnums = 2;
    data.tests[0].nvalues = 1;
    assert!(!u32_match_it(&data, &[0xff, 0xff, 0xff, 0xff]));

    let mut bad = XtU32 { ntests: 1, ..XtU32::default() };
    bad.tests[0].nnums = XT_U32_ARRAY_LEN as u8 + 1;
    assert_eq!(u32_mt_checkentry(&bad), Err(-EINVAL));
    assert_eq!(u32_mt_init().revision, 0);
}

#[test]
fn u32_at_follows_offset_into_packet() {
    // Word at 0 is 4; jump to 4 + 0 and read the next word.
    let mut data = XtU32 { ntests: 1, ..XtU32::default() };
    data.tests[0].location[1] = XtU32LocationElement { number: 0, nextop: XT_U32_AT };
    data.tests[0].value[0] = XtU32ValueElement { min: 0xdead_beef, max: 0xdead_beef };
    data.tests[0].nnums = 2;
    data.tests[0].nvalues = 1;
    assert!(u32_match_it(&data, &[0, 0, 0, 4, 0xde, 0xad, 0xbe, 0xef]));
    assert!(!u32_match_it(&data, &[0, 0, 0, 4, 0xde, 0xad, 0xbe]));
    // No tests at all: the rule matches every packet.
    assert!(u32_match_it(&XtU32::default(), &[]));
    let too_many = XtU32 { ntests: XT_U32_ARRAY_LEN as u8 + 1, ..XtU32::default() };
    assert_eq!(u32_mt_checkentry(&too_many), Err(-EINVAL));
}
