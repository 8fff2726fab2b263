use udp_tunnel_core::udp_proto::{
    UdpFlow, REDIRECT_FLOW_4_FOOTER_ID, UDP_CHANNEL_ESTABLISH_ID, UDP_FLOW_LEN_V4,
    UDP_FLOW_LEN_V6,
};

fn push_u32_be(data: &mut Vec<u8>, x: u32) {
    data.push((x >> 24) as u8);
    data.push((x >> 16) as u8);
    data.push((x >> 8) as u8);
    data.push(x as u8);
}

#[test]
fn flow_round_trip_v4() {
    let mut data: Vec<u8> = vec![9, 8, 7, 6, 5];
    let flow = UdpFlow::V4 {
        src_ip: u32::from_be_bytes([4, 2, 1, 3]),
        src_port: 1234,
        dst_ip: u32::from_be_bytes([1, 2, 3, 4]),
        dst_port: 5512,
    };
    flow.write_to_vec(&mut data);
    assert_eq!(data.len(), 5 + UDP_FLOW_LEN_V4);
    assert_eq!(&data[..5], &[9, 8, 7, 6, 5]);
    let parsed = UdpFlow::from_tail(&data, data.len()).unwrap();
    assert_eq!(parsed, flow);
}

#[test]
fn flow_round_trip_v6() {
    let mut data: Vec<u8> = Vec::new();
    let flow = UdpFlow::V6 {
        src_ip: 0x2601_01c2_c100_0555_020f_53ff_fe4e_e541,
        src_port: 100,
        dst_ip: 0x2601_01c2_c100_0555_020f_53ff_fe4e_e542,
        dst_port: 999,
    };
    flow.write_to_vec(&mut data);
    assert_eq!(data.len(), UDP_FLOW_LEN_V6);
    let parsed = UdpFlow::from_tail(&data, data.len()).unwrap();
    assert_eq!(parsed, flow);
}

#[test]
fn flow_len_by_family() {
    let v4 = UdpFlow::V4 { src_ip: 1, src_port: 2, dst_ip: 3, dst_port: 4 };
    let v6 = UdpFlow::V6 { src_ip: 1, src_port: 2, dst_ip: 3, dst_port: 4 };
    assert_eq!(v4.len(), 16);
    assert_eq!(v6.len(), 40);
}

#[test]
fn tail_with_establish_marker() {
    let mut data: Vec<u8> = vec![0xaa, 0xbb, 0xcc];
    push_u32_be(&mut data, UDP_CHANNEL_ESTABLISH_ID);
    let r = UdpFlow::from_tail(&data, data.len());
    assert_eq!(r, Err(Some(UDP_CHANNEL_ESTABLISH_ID)));
}

#[test]
fn tail_with_unknown_marker() {
    let mut data: Vec<u8> = vec![1, 2, 3, 4, 5, 6];
    push_u32_be(&mut data, 0xdead_beef);
    let r = UdpFlow::from_tail(&data, data.len());
    assert_eq!(r, Err(Some(0xdead_beef)));
}

#[test]
fn tail_too_short() {
    let data: Vec<u8> = vec![1, 2, 3];
    assert_eq!(UdpFlow::from_tail(&data, 3), Err(None));
    let mut short: Vec<u8> = vec![0; 8];
    push_u32_be(&mut short, REDIRECT_FLOW_4_FOOTER_ID);
    // 12 bytes total: a v4 marker but not a whole v4 footer
    assert_eq!(UdpFlow::from_tail(&short, short.len()), Err(None));
}
