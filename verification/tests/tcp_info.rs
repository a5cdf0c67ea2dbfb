//! The kernel's account of a connection.

use l4ext::bytes::ByteOrder;
use l4ext::error::{ErrorKind, IoError, OsError};
use l4ext::platform::Platform;
use l4ext::sockopt::{GetOpt, Level, OptName, Start};
use l4ext::tcp_info::{get_tcp_info, tcp_info_reply, TCP_INFO};

fn reply_bytes() -> Vec<u8> {
    (0..TCP_INFO::len()).map(|i| i as u8).collect()
}

#[test]
fn length_is_that_of_the_padded_struct() {
    let align = std::mem::align_of::<u64>() as u32;
    assert_eq!(TCP_INFO::len(), 236u32.div_ceil(align) * align);
}

#[test]
fn fields_stand_where_the_kernel_puts_them() {
    let info = tcp_info_reply(ByteOrder::Little, Ok(reply_bytes())).unwrap();
    assert_eq!(info.tcpi_state, 0);
    assert_eq!(info.tcpi_delivery_rate_app_limited, 7);
    assert_eq!(info.tcpi_rto, u32::from_le_bytes([8, 9, 10, 11]));
    assert_eq!(info.tcpi_rtt, u32::from_le_bytes([68, 69, 70, 71]));
    assert_eq!(info.tcpi_total_retrans, u32::from_le_bytes([100, 101, 102, 103]));
    assert_eq!(
        info.tcpi_pacing_rate,
        u64::from_le_bytes([104, 105, 106, 107, 108, 109, 110, 111])
    );
    assert_eq!(
        info.tcpi_delivery_rate,
        u64::from_le_bytes([160, 161, 162, 163, 164, 165, 166, 167])
    );
    assert_eq!(info.tcpi_delivered, u32::from_le_bytes([192, 193, 194, 195]));
    assert_eq!(info.tcpi_rcv_wnd, u32::from_le_bytes([232, 233, 234, 235]));
}

#[test]
fn byte_order_matters() {
    let info = tcp_info_reply(ByteOrder::Big, Ok(reply_bytes())).unwrap();
    assert_eq!(info.tcpi_backoff, 4);
    assert_eq!(info.tcpi_rto, u32::from_be_bytes([8, 9, 10, 11]));
    assert_eq!(
        info.tcpi_bytes_retrans,
        u64::from_be_bytes([208, 209, 210, 211, 212, 213, 214, 215])
    );
}

#[test]
fn zero_bytes_are_a_new_struct() {
    let zeros = vec![0u8; TCP_INFO::len() as usize];
    assert_eq!(tcp_info_reply(ByteOrder::Little, Ok(zeros)), Ok(TCP_INFO::new()));
}

#[test]
fn a_changed_byte_is_seen() {
    let info = tcp_info_reply(ByteOrder::Little, Ok(reply_bytes())).unwrap();
    for i in 0..236 {
        let mut bytes = reply_bytes();
        bytes[i] ^= 1;
        assert_ne!(tcp_info_reply(ByteOrder::Little, Ok(bytes)), Ok(info));
    }
}

#[test]
fn only_linux_is_asked() {
    assert_eq!(
        get_tcp_info(Platform::Linux),
        Start::Ask(GetOpt {
            level: Level::Tcp,
            name: OptName::TcpInfo,
            size: TCP_INFO::len()
        })
    );
    for platform in [Platform::FreeBsd, Platform::OtherUnix, Platform::Windows] {
        assert_eq!(get_tcp_info(platform), Start::Known(TCP_INFO::new()));
    }
}

#[test]
fn errors_come_through() {
    let e = OsError { kind: ErrorKind::Other, errno: None };
    assert_eq!(tcp_info_reply(ByteOrder::Little, Err(e)), Err(IoError::Os(e)));
    assert_eq!(
        tcp_info_reply(ByteOrder::Little, Ok(vec![0; 232])),
        Err(IoError::Other("get_opt size mismatch"))
    );
}
