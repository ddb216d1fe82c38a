use netlink_packet_route::errors::DecodeError;
use netlink_packet_route::nla::{
    buffer_len, emit, DefaultNla, Nla as Attribute, NlaBuffer, Parseable, ParseableParametrized,
};
use netlink_packet_route::route::cache_info::{CacheInfo, CacheInfoBuffer, CACHE_INFO_LEN};
use netlink_packet_route::route::header::{RouteHeader, RouteMessageBuffer};
use netlink_packet_route::route::message::RouteMessage;
use netlink_packet_route::route::metrics::Metrics;
use netlink_packet_route::route::mfc_stats::{MfcStats, MfcStatsBuffer, MFC_STATS_LEN};
use netlink_packet_route::route::next_hops::NextHops;
use netlink_packet_route::route::nlas::{DecodePolicy, Nla};

fn record(kind: u16, value: &[u8]) -> Vec<u8> {
    let mut bytes = Vec::new();
    bytes.extend_from_slice(&((value.len() + 4) as u16).to_ne_bytes());
    bytes.extend_from_slice(&kind.to_ne_bytes());
    bytes.extend_from_slice(value);
    while bytes.len() % 4 != 0 {
        bytes.push(0);
    }
    bytes
}

fn decode(bytes: &[u8], policy: DecodePolicy) -> Result<Nla, DecodeError> {
    Nla::parse_with_param(&NlaBuffer::new_checked(bytes).unwrap(), policy)
}

fn encode(nla: &Nla) -> Vec<u8> {
    assert!(nla.is_emittable());
    let mut buffer = vec![0xff; buffer_len(nla)];
    emit(nla, &mut buffer[..]);
    buffer
}

fn nested(name: &'static str, cause: DecodeError) -> DecodeError {
    DecodeError::Nested { name, cause: Box::new(cause) }
}

fn cache_info() -> CacheInfo {
    CacheInfo {
        clntref: 1,
        last_use: 2,
        expires: 3,
        error: 4,
        used: 5,
        id: 6,
        ts: 0xffff_fffe,
        ts_age: 0x0102_0304,
    }
}

fn cache_info_bytes() -> Vec<u8> {
    let mut bytes = Vec::new();
    for n in [1u32, 2, 3, 4, 5, 6, 0xffff_fffe, 0x0102_0304] {
        bytes.extend_from_slice(&n.to_ne_bytes());
    }
    bytes
}

fn mfc_stats() -> MfcStats {
    MfcStats { packets: 0x0102_0304_0506_0708, bytes: u64::MAX, wrong_if: 1 }
}

fn mfc_stats_bytes() -> Vec<u8> {
    let mut bytes = Vec::new();
    for n in [0x0102_0304_0506_0708u64, u64::MAX, 1] {
        bytes.extend_from_slice(&n.to_ne_bytes());
    }
    bytes
}

fn next_hops() -> NextHops {
    NextHops { len: 8, flags: 1, hops: 2, interface_id: 3 }
}

fn next_hops_bytes() -> Vec<u8> {
    let mut bytes = Vec::new();
    bytes.extend_from_slice(&8u16.to_ne_bytes());
    bytes.extend_from_slice(&[1, 2]);
    bytes.extend_from_slice(&3u32.to_ne_bytes());
    bytes.extend_from_slice(&[0; 56]);
    bytes
}

#[test]
fn policy_decides_how_structures_decode() {
    let bytes = record(12, &cache_info_bytes());
    assert_eq!(decode(&bytes, DecodePolicy::Raw), Ok(Nla::CacheInfo(cache_info_bytes())));
    assert_eq!(decode(&bytes, DecodePolicy::Rich), Ok(Nla::RichCacheInfo(cache_info())));
    let bytes = record(17, &mfc_stats_bytes());
    assert_eq!(decode(&bytes, DecodePolicy::Raw), Ok(Nla::MfcStats(mfc_stats_bytes())));
    assert_eq!(decode(&bytes, DecodePolicy::Rich), Ok(Nla::RichMfcStats(mfc_stats())));
    let bytes = record(9, &next_hops_bytes());
    assert_eq!(decode(&bytes, DecodePolicy::Raw), Ok(Nla::MultiPath(next_hops_bytes())));
    assert_eq!(decode(&bytes, DecodePolicy::Rich), Ok(Nla::RichMultiPath(next_hops())));
    let metric = record(2, &1400u32.to_ne_bytes());
    let bytes = record(8, &metric);
    assert_eq!(decode(&bytes, DecodePolicy::Raw), Ok(Nla::Metrics(metric)));
    assert_eq!(decode(&bytes, DecodePolicy::Rich), Ok(Nla::RichMetrics(Metrics::Mtu(1400))));
}

#[test]
fn plain_parse_is_the_raw_policy() {
    let bytes = record(12, &cache_info_bytes());
    let buf = NlaBuffer::new_checked(&bytes[..]).unwrap();
    assert_eq!(Nla::parse(&buf), Ok(Nla::CacheInfo(cache_info_bytes())));
}

#[test]
fn policy_leaves_the_other_kinds_alone() {
    let bytes = record(4, &7u32.to_ne_bytes());
    assert_eq!(decode(&bytes, DecodePolicy::Raw), Ok(Nla::Oif(7)));
    assert_eq!(decode(&bytes, DecodePolicy::Rich), Ok(Nla::Oif(7)));
    let bytes = record(500, &[1]);
    assert_eq!(decode(&bytes, DecodePolicy::Rich), Ok(Nla::Other(DefaultNla::new(500, vec![1]))));
}

#[test]
fn decoded_structures_are_written_as_their_records() {
    assert_eq!(encode(&Nla::RichCacheInfo(cache_info())), record(12, &cache_info_bytes()));
    assert_eq!(encode(&Nla::RichMfcStats(mfc_stats())), record(17, &mfc_stats_bytes()));
    assert_eq!(encode(&Nla::RichMultiPath(next_hops())), record(9, &next_hops_bytes()));
    assert_eq!(
        encode(&Nla::RichMetrics(Metrics::Mtu(1400))),
        record(8, &record(2, &1400u32.to_ne_bytes()))
    );
    assert_eq!(Nla::RichCacheInfo(cache_info()).value_len(), 32);
    assert_eq!(Nla::RichMfcStats(mfc_stats()).value_len(), 24);
    assert_eq!(Nla::RichMultiPath(next_hops()).value_len(), 64);
    assert_eq!(Nla::RichMetrics(Metrics::Mtu(1400)).value_len(), 8);
    assert_eq!(Nla::RichMetrics(Metrics::Unspec(vec![1])).value_len(), 8);
    assert_eq!(Nla::RichMetrics(Metrics::Mtu(1400)).kind(), 8);
}

#[test]
fn structure_that_is_cut_short_fails_within_its_kind() {
    let bytes = record(12, &cache_info_bytes()[..31]);
    assert_eq!(
        decode(&bytes, DecodePolicy::Rich),
        Err(nested("RTA_CACHEINFO", DecodeError::Truncated))
    );
    assert!(decode(&bytes, DecodePolicy::Raw).is_ok());
    let bytes = record(17, &mfc_stats_bytes()[..23]);
    assert_eq!(
        decode(&bytes, DecodePolicy::Rich),
        Err(nested("RTA_MFC_STATS", DecodeError::Truncated))
    );
    let bytes = record(9, &next_hops_bytes()[..63]);
    assert_eq!(
        decode(&bytes, DecodePolicy::Rich),
        Err(nested("RTA_MULTIPATH", DecodeError::Truncated))
    );
    assert_eq!(
        decode(&record(8, &[]), DecodePolicy::Rich),
        Err(nested("RTA_METRICS", DecodeError::Truncated))
    );
    assert_eq!(
        decode(&record(8, &[3, 0, 2, 0]), DecodePolicy::Rich),
        Err(nested("RTA_METRICS", DecodeError::InvalidLength))
    );
    assert_eq!(
        decode(&record(8, &record(2, &[1, 2])), DecodePolicy::Rich),
        Err(nested("RTA_METRICS", DecodeError::Malformed { name: "RTAX_MTU" }))
    );
}

#[test]
fn metric_kinds() {
    let metric = |bytes: &[u8]| Metrics::parse(&NlaBuffer::new_checked(bytes).unwrap());
    let n = 77u32.to_ne_bytes();
    assert_eq!(metric(&record(0, &[1, 2])), Ok(Metrics::Unspec(vec![1, 2])));
    assert_eq!(metric(&record(1, &n)), Ok(Metrics::Lock(77)));
    assert_eq!(metric(&record(2, &n)), Ok(Metrics::Mtu(77)));
    assert_eq!(metric(&record(3, &n)), Ok(Metrics::Window(77)));
    assert_eq!(metric(&record(4, &n)), Ok(Metrics::Rtt(77)));
    assert_eq!(metric(&record(5, &n)), Ok(Metrics::RttVar(77)));
    assert_eq!(metric(&record(6, &n)), Ok(Metrics::SsThresh(77)));
    assert_eq!(metric(&record(7, &n)), Ok(Metrics::Cwnd(77)));
    assert_eq!(metric(&record(8, &n)), Ok(Metrics::Advmss(77)));
    assert_eq!(metric(&record(9, &n)), Ok(Metrics::Reordering(77)));
    assert_eq!(metric(&record(10, &n)), Ok(Metrics::Hoplimit(77)));
    assert_eq!(metric(&record(11, &n)), Ok(Metrics::InitCwnd(77)));
    assert_eq!(metric(&record(12, &n)), Ok(Metrics::Features(77)));
    assert_eq!(metric(&record(13, &n)), Ok(Metrics::RtoMin(77)));
    assert_eq!(metric(&record(14, &n)), Ok(Metrics::InitRwnd(77)));
    assert_eq!(metric(&record(15, &n)), Ok(Metrics::QuickAck(77)));
    assert_eq!(metric(&record(16, &n)), Ok(Metrics::CcAlgo(77)));
    assert_eq!(metric(&record(17, &n)), Ok(Metrics::FastopenNoCookie(77)));
    assert_eq!(metric(&record(18, &n)), Ok(Metrics::Other(DefaultNla::new(18, n.to_vec()))));
    assert_eq!(
        metric(&record(16, &[1])),
        Err(DecodeError::Malformed { name: "RTAX_CC_ALGO" })
    );
}

#[test]
fn cache_info_has_eight_fields_of_four_bytes() {
    let bytes = cache_info_bytes();
    assert_eq!(bytes.len(), CACHE_INFO_LEN);
    let buf = CacheInfoBuffer::new_checked(&bytes[..]).unwrap();
    assert_eq!(buf.field(0), 1);
    assert_eq!(buf.field(6), 0xffff_fffe);
    assert_eq!(buf.field(7), 0x0102_0304);
    assert_eq!(CacheInfo::parse(&buf), Ok(cache_info()));
    assert_eq!(cache_info().buffer_len(), 32);
    let mut buffer = vec![0xee; 34];
    cache_info().emit(&mut buffer[..]);
    assert_eq!(&buffer[..32], &bytes[..]);
    assert_eq!(&buffer[32..], &[0xee, 0xee][..]);
    assert_eq!(CacheInfoBuffer::new_checked(&bytes[..31]).err(), Some(DecodeError::Truncated));
}

#[test]
fn mfc_stats_has_three_fields_of_eight_bytes() {
    let bytes = mfc_stats_bytes();
    assert_eq!(bytes.len(), MFC_STATS_LEN);
    let buf = MfcStatsBuffer::new_checked(&bytes[..]).unwrap();
    assert_eq!(buf.packets(), 0x0102_0304_0506_0708);
    assert_eq!(buf.bytes(), u64::MAX);
    assert_eq!(buf.wrong_if(), 1);
    assert_eq!(MfcStats::parse(&buf), Ok(mfc_stats()));
    assert_eq!(mfc_stats().buffer_len(), 24);
    let mut buffer = vec![0xee; 25];
    mfc_stats().emit(&mut buffer[..]);
    assert_eq!(&buffer[..24], &bytes[..]);
    assert_eq!(buffer[24], 0xee);
    assert_eq!(MfcStatsBuffer::new_checked(&bytes[..23]).err(), Some(DecodeError::Truncated));
}

#[test]
fn next_hops_record_is_padded_with_zero_bytes() {
    let mut buffer = vec![0xee; 64];
    next_hops().emit_padded(&mut buffer[..]);
    assert_eq!(buffer, next_hops_bytes());
}

#[test]
fn rich_route_message_round_trip() {
    let message = RouteMessage {
        header: RouteHeader::default(),
        nlas: vec![
            Nla::Destination(vec![10, 0, 0, 0]),
            Nla::RichMetrics(Metrics::Window(512)),
            Nla::RichCacheInfo(cache_info()),
            Nla::RichMfcStats(mfc_stats()),
            Nla::RichMultiPath(next_hops()),
        ],
    };
    assert!(message.is_emittable());
    let mut buffer = vec![0xff; message.buffer_len()];
    message.emit(&mut buffer[..]);
    let buf = RouteMessageBuffer::new_checked(&buffer[..]).unwrap();
    assert_eq!(RouteMessage::parse_with_param(&buf, DecodePolicy::Rich).as_ref(), Ok(&message));
    let raw = RouteMessage::parse(&buf).unwrap();
    assert_eq!(raw.nlas[2], Nla::CacheInfo(cache_info_bytes()));
    assert_eq!(raw.nlas[4], Nla::MultiPath(next_hops_bytes()));
    let mut again = vec![0; raw.buffer_len()];
    raw.emit(&mut again[..]);
    assert_eq!(again, buffer);
}
