use socketcan_isotp::effective_can_id;
use socketcan_isotp::options::CAN_ISOTP_EXTEND_ADDR;
use socketcan_isotp::options::CAN_ISOTP_LISTEN_MODE;
use socketcan_isotp::options::CAN_ISOTP_TX_PADDING;
use socketcan_isotp::Duration;
use socketcan_isotp::FlowControlOptions;
use socketcan_isotp::IsoTpBehaviour;
use socketcan_isotp::IsoTpOptions;
use socketcan_isotp::LinkLayerOptions;
use socketcan_isotp::TxFlags;
use socketcan_isotp::CAN_MAX_DLEN;
use socketcan_isotp::EFF_FLAG;

#[test]
fn duration_round_trip() {
    let d = Duration::from_nanos(1_500_000_000);
    assert_eq!(d.as_nanos(), 1_500_000_000u128);
    let d = Duration::new(2, 250_000_000);
    assert_eq!(d.as_nanos(), 2_250_000_000u128);
    let d = Duration::from_nanos(0);
    assert_eq!(d.as_nanos(), 0u128);
}

#[test]
fn behaviour_flags_round_trip() {
    let b = IsoTpBehaviour::from_bits(CAN_ISOTP_LISTEN_MODE | CAN_ISOTP_TX_PADDING).unwrap();
    assert_eq!(b.bits(), 0x005);
    assert!(b.contains(IsoTpBehaviour::from_bits(CAN_ISOTP_LISTEN_MODE).unwrap()));
    assert!(!b.contains(IsoTpBehaviour::from_bits(CAN_ISOTP_EXTEND_ADDR).unwrap()));
    let u = b.union(IsoTpBehaviour::from_bits(CAN_ISOTP_EXTEND_ADDR).unwrap());
    assert_eq!(u.bits(), 0x007);
    assert_eq!(IsoTpBehaviour::empty().bits(), 0);
}

#[test]
fn behaviour_flags_reject_unknown_bits() {
    assert!(IsoTpBehaviour::from_bits(0x400).is_none());
    assert!(IsoTpBehaviour::from_bits(0xFFFF_FFFF).is_none());
    assert!(IsoTpBehaviour::from_bits(0x3FF).is_some());
}

#[test]
fn isotp_options_new_and_getters() {
    let flags = IsoTpBehaviour::from_bits(CAN_ISOTP_TX_PADDING).unwrap();
    let opts = IsoTpOptions::new(flags, Duration::from_nanos(1000), 0xA5, 0xCC, 0xDD, 0x5A)
        .unwrap();
    assert_eq!(opts.get_flags().unwrap().bits(), CAN_ISOTP_TX_PADDING);
    assert_eq!(opts.get_frame_txtime().as_nanos(), 1000u128);
    assert_eq!(opts.get_ext_address(), 0xA5);
    assert_eq!(opts.get_txpad_content(), 0xCC);
    assert_eq!(opts.get_rxpad_content(), 0xDD);
    assert_eq!(opts.get_rx_ext_address(), 0x5A);
}

#[test]
fn isotp_options_rejects_long_txtime() {
    // u32::MAX nanoseconds is just under 4.3 s; 5 s must be refused
    let r = IsoTpOptions::new(IsoTpBehaviour::empty(), Duration::new(5, 0), 0, 0xCC, 0xCC, 0);
    assert!(r.is_err());
    let r = IsoTpOptions::new(
        IsoTpBehaviour::empty(),
        Duration::from_nanos(u32::MAX as u64),
        0,
        0xCC,
        0xCC,
        0,
    );
    assert!(r.is_ok());
}

#[test]
fn isotp_options_setters() {
    let mut opts = IsoTpOptions::default();
    opts.set_flags(IsoTpBehaviour::from_bits(CAN_ISOTP_LISTEN_MODE).unwrap());
    assert_eq!(opts.get_flags().unwrap().bits(), CAN_ISOTP_LISTEN_MODE);
    assert!(opts.set_frame_txtime(Duration::from_nanos(500)).is_ok());
    assert_eq!(opts.get_frame_txtime().as_nanos(), 500u128);
    assert!(opts.set_frame_txtime(Duration::new(5, 0)).is_err());
    assert_eq!(opts.get_frame_txtime().as_nanos(), 500u128);
    opts.set_ext_address(0x11);
    assert_eq!(opts.get_ext_address(), 0x11);
    opts.set_txpad_content(0xAA);
    assert_eq!(opts.get_txpad_content(), 0xAA);
    opts.set_rxpad_content(0xBB);
    assert_eq!(opts.get_rxpad_content(), 0xBB);
    opts.set_rx_ext_address(0x22);
    assert_eq!(opts.get_rx_ext_address(), 0x22);
}

#[test]
fn isotp_options_defaults() {
    let opts = IsoTpOptions::default();
    assert_eq!(opts.get_flags().unwrap().bits(), 0);
    assert_eq!(opts.get_frame_txtime().as_nanos(), 0u128);
    assert_eq!(opts.get_ext_address(), 0x00);
    assert_eq!(opts.get_txpad_content(), 0xCC);
    assert_eq!(opts.get_rxpad_content(), 0xCC);
    assert_eq!(opts.get_rx_ext_address(), 0x00);
}

#[test]
fn flow_control_options() {
    let fc = FlowControlOptions::default();
    assert_eq!(fc.get_bs(), 0);
    assert_eq!(fc.get_stmin(), 0);
    assert_eq!(fc.get_wftmax(), 0);
    let fc = FlowControlOptions::new(8, 0x14, 3);
    assert_eq!(fc.get_bs(), 8);
    assert_eq!(fc.get_stmin(), 0x14);
    assert_eq!(fc.get_wftmax(), 3);
}

#[test]
fn link_layer_options() {
    let ll = LinkLayerOptions::default();
    assert_eq!(ll.get_mtu(), 16);
    assert_eq!(ll.get_tx_dl(), CAN_MAX_DLEN);
    assert_eq!(ll.get_tx_flags(), 0);
    let ll = LinkLayerOptions::new(72, 64, TxFlags::from_bits(0x01).unwrap());
    assert_eq!(ll.get_mtu(), 72);
    assert_eq!(ll.get_tx_dl(), 64);
    assert_eq!(ll.get_tx_flags(), 0x01);
}

#[test]
fn tx_flags_reject_unknown_bits() {
    assert!(TxFlags::from_bits(0x04).is_none());
    assert_eq!(TxFlags::empty().bits(), 0);
    assert_eq!(TxFlags::from_bits(0x03).unwrap().bits(), 0x03);
}

#[test]
fn can_id_flagging() {
    assert_eq!(effective_can_id(0x123), 0x123);
    assert_eq!(effective_can_id(0x7FF), 0x7FF);
    assert_eq!(effective_can_id(0x800), 0x800 | EFF_FLAG);
    assert_eq!(effective_can_id(0x18DA_F101), 0x18DA_F101 | EFF_FLAG);
}
