//! The kernel's account of a TCP connection.

use vstd::prelude::*;
use vstd::layout::{align_of, layout_for_type_is_valid};
use crate::bytes::{
    lemma_number_of_zeros, lemma_spell_u32, lemma_spell_u64, lemma_spell_u8, lemma_u32_field,
    lemma_u64_field, read_u32, read_u64, spell, u32_at, u64_at, ByteOrder,
};
use crate::error::{IoError, OsError};
use crate::platform::Platform;
use crate::sockopt::{get_opt, get_opt_sized, sized_reply, GetOpt, Level, OptName, Start};

verus! {

/// The (copy of) the kernel struct `tcp_info`.
#[allow(non_camel_case_types)]
#[derive(Clone, Copy, Debug, PartialEq, Eq, Structural)]
pub struct TCP_INFO {
    pub tcpi_state: u8,
    pub tcpi_ca_state: u8,
    pub tcpi_retransmits: u8,
    pub tcpi_probes: u8,
    pub tcpi_backoff: u8,
    pub tcpi_options: u8,
    pub tcpi_snd_wscale_4_rcv_wscale_4: u8,
    pub tcpi_delivery_rate_app_limited: u8,
    pub tcpi_rto: u32,
    pub tcpi_ato: u32,
    pub tcpi_snd_mss: u32,
    pub tcpi_rcv_mss: u32,
    pub tcpi_unacked: u32,
    pub tcpi_sacked: u32,
    pub tcpi_lost: u32,
    pub tcpi_retrans: u32,
    pub tcpi_fackets: u32,
    pub tcpi_last_data_sent: u32,
    pub tcpi_last_ack_sent: u32,
    pub tcpi_last_data_recv: u32,
    pub tcpi_last_ack_recv: u32,
    pub tcpi_pmtu: u32,
    pub tcpi_rcv_ssthresh: u32,
    pub tcpi_rtt: u32,
    pub tcpi_rttvar: u32,
    pub tcpi_snd_ssthresh: u32,
    pub tcpi_snd_cwnd: u32,
    pub tcpi_advmss: u32,
    pub tcpi_reordering: u32,
    pub tcpi_rcv_rtt: u32,
    pub tcpi_rcv_space: u32,
    pub tcpi_total_retrans: u32,
    pub tcpi_pacing_rate: u64,
    pub tcpi_max_pacing_rate: u64,
    pub tcpi_bytes_acked: u64,
    pub tcpi_bytes_received: u64,
    pub tcpi_segs_out: u32,
    pub tcpi_segs_in: u32,
    pub tcpi_notsent_bytes: u32,
    pub tcpi_min_rtt: u32,
    pub tcpi_data_segs_in: u32,
    pub tcpi_data_segs_out: u32,
    pub tcpi_delivery_rate: u64,
    pub tcpi_busy_time: u64,
    pub tcpi_rwnd_limited: u64,
    pub tcpi_sndbuf_limited: u64,
    pub tcpi_delivered: u32,
    pub tcpi_delivered_ce: u32,
    pub tcpi_bytes_sent: u64,
    pub tcpi_bytes_retrans: u64,
    pub tcpi_dsack_dups: u32,
    pub tcpi_reord_seen: u32,
    pub tcpi_rcv_ooopack: u32,
    pub tcpi_snd_wnd: u32,
    pub tcpi_rcv_wnd: u32,
    // and more, see include/linux/tcp.h
}

/// Where the last field of [`TCP_INFO`] ends.
pub const TCP_INFO_FIELDS_LEN: usize = 236;

/// What the bytes of the kernel's struct say: the fields stand one behind the other in the
/// order in which they are declared, each in the machine's byte order, and none needs padding
/// before it.
pub open spec fn tcp_info_at(bytes: Seq<u8>, order: ByteOrder) -> TCP_INFO {
    TCP_INFO {
        tcpi_state: bytes[0],
        tcpi_ca_state: bytes[1],
        tcpi_retransmits: bytes[2],
        tcpi_probes: bytes[3],
        tcpi_backoff: bytes[4],
        tcpi_options: bytes[5],
        tcpi_snd_wscale_4_rcv_wscale_4: bytes[6],
        tcpi_delivery_rate_app_limited: bytes[7],
        tcpi_rto: u32_at(bytes, 8, order),
        tcpi_ato: u32_at(bytes, 12, order),
        tcpi_snd_mss: u32_at(bytes, 16, order),
        tcpi_rcv_mss: u32_at(bytes, 20, order),
        tcpi_unacked: u32_at(bytes, 24, order),
        tcpi_sacked: u32_at(bytes, 28, order),
        tcpi_lost: u32_at(bytes, 32, order),
        tcpi_retrans: u32_at(bytes, 36, order),
        tcpi_fackets: u32_at(bytes, 40, order),
        tcpi_last_data_sent: u32_at(bytes, 44, order),
        tcpi_last_ack_sent: u32_at(bytes, 48, order),
        tcpi_last_data_recv: u32_at(bytes, 52, order),
        tcpi_last_ack_recv: u32_at(bytes, 56, order),
        tcpi_pmtu: u32_at(bytes, 60, order),
        tcpi_rcv_ssthresh: u32_at(bytes, 64, order),
        tcpi_rtt: u32_at(bytes, 68, order),
        tcpi_rttvar: u32_at(bytes, 72, order),
        tcpi_snd_ssthresh: u32_at(bytes, 76, order),
        tcpi_snd_cwnd: u32_at(bytes, 80, order),
        tcpi_advmss: u32_at(bytes, 84, order),
        tcpi_reordering: u32_at(bytes, 88, order),
        tcpi_rcv_rtt: u32_at(bytes, 92, order),
        tcpi_rcv_space: u32_at(bytes, 96, order),
        tcpi_total_retrans: u32_at(bytes, 100, order),
        tcpi_pacing_rate: u64_at(bytes, 104, order),
        tcpi_max_pacing_rate: u64_at(bytes, 112, order),
        tcpi_bytes_acked: u64_at(bytes, 120, order),
        tcpi_bytes_received: u64_at(bytes, 128, order),
        tcpi_segs_out: u32_at(bytes, 136, order),
        tcpi_segs_in: u32_at(bytes, 140, order),
        tcpi_notsent_bytes: u32_at(bytes, 144, order),
        tcpi_min_rtt: u32_at(bytes, 148, order),
        tcpi_data_segs_in: u32_at(bytes, 152, order),
        tcpi_data_segs_out: u32_at(bytes, 156, order),
        tcpi_delivery_rate: u64_at(bytes, 160, order),
        tcpi_busy_time: u64_at(bytes, 168, order),
        tcpi_rwnd_limited: u64_at(bytes, 176, order),
        tcpi_sndbuf_limited: u64_at(bytes, 184, order),
        tcpi_delivered: u32_at(bytes, 192, order),
        tcpi_delivered_ce: u32_at(bytes, 196, order),
        tcpi_bytes_sent: u64_at(bytes, 200, order),
        tcpi_bytes_retrans: u64_at(bytes, 208, order),
        tcpi_dsack_dups: u32_at(bytes, 216, order),
        tcpi_reord_seen: u32_at(bytes, 220, order),
        tcpi_rcv_ooopack: u32_at(bytes, 224, order),
        tcpi_snd_wnd: u32_at(bytes, 228, order),
        tcpi_rcv_wnd: u32_at(bytes, 232, order),
    }
}

/// A [`TCP_INFO`] of nothing but zeros.
pub open spec fn zeroed() -> TCP_INFO {
    TCP_INFO {
        tcpi_state: 0,
        tcpi_ca_state: 0,
        tcpi_retransmits: 0,
        tcpi_probes: 0,
        tcpi_backoff: 0,
        tcpi_options: 0,
        tcpi_snd_wscale_4_rcv_wscale_4: 0,
        tcpi_delivery_rate_app_limited: 0,
        tcpi_rto: 0,
        tcpi_ato: 0,
        tcpi_snd_mss: 0,
        tcpi_rcv_mss: 0,
        tcpi_unacked: 0,
        tcpi_sacked: 0,
        tcpi_lost: 0,
        tcpi_retrans: 0,
        tcpi_fackets: 0,
        tcpi_last_data_sent: 0,
        tcpi_last_ack_sent: 0,
        tcpi_last_data_recv: 0,
        tcpi_last_ack_recv: 0,
        tcpi_pmtu: 0,
        tcpi_rcv_ssthresh: 0,
        tcpi_rtt: 0,
        tcpi_rttvar: 0,
        tcpi_snd_ssthresh: 0,
        tcpi_snd_cwnd: 0,
        tcpi_advmss: 0,
        tcpi_reordering: 0,
        tcpi_rcv_rtt: 0,
        tcpi_rcv_space: 0,
        tcpi_total_retrans: 0,
        tcpi_pacing_rate: 0,
        tcpi_max_pacing_rate: 0,
        tcpi_bytes_acked: 0,
        tcpi_bytes_received: 0,
        tcpi_segs_out: 0,
        tcpi_segs_in: 0,
        tcpi_notsent_bytes: 0,
        tcpi_min_rtt: 0,
        tcpi_data_segs_in: 0,
        tcpi_data_segs_out: 0,
        tcpi_delivery_rate: 0,
        tcpi_busy_time: 0,
        tcpi_rwnd_limited: 0,
        tcpi_sndbuf_limited: 0,
        tcpi_delivered: 0,
        tcpi_delivered_ce: 0,
        tcpi_bytes_sent: 0,
        tcpi_bytes_retrans: 0,
        tcpi_dsack_dups: 0,
        tcpi_reord_seen: 0,
        tcpi_rcv_ooopack: 0,
        tcpi_snd_wnd: 0,
        tcpi_rcv_wnd: 0,
    }
}

/// The size of the kernel's struct: the fields, and behind them what fills it up to a multiple
/// of the alignment of a `u64`.
pub open spec fn tcp_info_len() -> nat {
    if align_of::<u64>() == 8 {
        (TCP_INFO_FIELDS_LEN + 4) as nat
    } else {
        TCP_INFO_FIELDS_LEN as nat
    }
}

proof fn lemma_divisors_of_eight(a: nat)
    by (nonlinear_arith)
    requires
        a != 0,
        8nat % a == 0,
    ensures
        a == 1 || a == 2 || a == 4 || a == 8,
{
}

impl TCP_INFO {
    /// Create a new zeroed out [`TCP_INFO`].
    pub fn new() -> (info: TCP_INFO)
        ensures
            info == zeroed(),
    {
        TCP_INFO {
            tcpi_state: 0,
            tcpi_ca_state: 0,
            tcpi_retransmits: 0,
            tcpi_probes: 0,
            tcpi_backoff: 0,
            tcpi_options: 0,
            tcpi_snd_wscale_4_rcv_wscale_4: 0,
            tcpi_delivery_rate_app_limited: 0,
            tcpi_rto: 0,
            tcpi_ato: 0,
            tcpi_snd_mss: 0,
            tcpi_rcv_mss: 0,
            tcpi_unacked: 0,
            tcpi_sacked: 0,
            tcpi_lost: 0,
            tcpi_retrans: 0,
            tcpi_fackets: 0,
            tcpi_last_data_sent: 0,
            tcpi_last_ack_sent: 0,
            tcpi_last_data_recv: 0,
            tcpi_last_ack_recv: 0,
            tcpi_pmtu: 0,
            tcpi_rcv_ssthresh: 0,
            tcpi_rtt: 0,
            tcpi_rttvar: 0,
            tcpi_snd_ssthresh: 0,
            tcpi_snd_cwnd: 0,
            tcpi_advmss: 0,
            tcpi_reordering: 0,
            tcpi_rcv_rtt: 0,
            tcpi_rcv_space: 0,
            tcpi_total_retrans: 0,
            tcpi_pacing_rate: 0,
            tcpi_max_pacing_rate: 0,
            tcpi_bytes_acked: 0,
            tcpi_bytes_received: 0,
            tcpi_segs_out: 0,
            tcpi_segs_in: 0,
            tcpi_notsent_bytes: 0,
            tcpi_min_rtt: 0,
            tcpi_data_segs_in: 0,
            tcpi_data_segs_out: 0,
            tcpi_delivery_rate: 0,
            tcpi_busy_time: 0,
            tcpi_rwnd_limited: 0,
            tcpi_sndbuf_limited: 0,
            tcpi_delivered: 0,
            tcpi_delivered_ce: 0,
            tcpi_bytes_sent: 0,
            tcpi_bytes_retrans: 0,
            tcpi_dsack_dups: 0,
            tcpi_reord_seen: 0,
            tcpi_rcv_ooopack: 0,
            tcpi_snd_wnd: 0,
            tcpi_rcv_wnd: 0,
        }
    }

    /// Return the size of [`TCP_INFO`] in the system's layout.
    pub fn len() -> (n: u32)
        ensures
            n == tcp_info_len(),
            n == (if align_of::<u64>() == 8 {
                240int
            } else {
                236
            }),
            n as nat % align_of::<u64>() == 0,
            TCP_INFO_FIELDS_LEN <= n < TCP_INFO_FIELDS_LEN + align_of::<u64>(),
    {
        layout_for_type_is_valid::<u64>();
        let align: usize = core::mem::align_of::<u64>();
        proof {
            broadcast use vstd::layout::layout_of_primitives;

            lemma_divisors_of_eight(align_of::<u64>());
        }
        if align == 8 {
            (TCP_INFO_FIELDS_LEN + 4) as u32
        } else {
            TCP_INFO_FIELDS_LEN as u32
        }
    }

    /// Reads the kernel's struct on a machine with the given byte order.
    pub fn read(bytes: &Vec<u8>, order: ByteOrder) -> (info: TCP_INFO)
        requires
            bytes@.len() >= TCP_INFO_FIELDS_LEN,
        ensures
            info == tcp_info_at(bytes@, order),
    {
        TCP_INFO {
            tcpi_state: bytes[0],
            tcpi_ca_state: bytes[1],
            tcpi_retransmits: bytes[2],
            tcpi_probes: bytes[3],
            tcpi_backoff: bytes[4],
            tcpi_options: bytes[5],
            tcpi_snd_wscale_4_rcv_wscale_4: bytes[6],
            tcpi_delivery_rate_app_limited: bytes[7],
            tcpi_rto: read_u32(bytes, 8, order),
            tcpi_ato: read_u32(bytes, 12, order),
            tcpi_snd_mss: read_u32(bytes, 16, order),
            tcpi_rcv_mss: read_u32(bytes, 20, order),
            tcpi_unacked: read_u32(bytes, 24, order),
            tcpi_sacked: read_u32(bytes, 28, order),
            tcpi_lost: read_u32(bytes, 32, order),
            tcpi_retrans: read_u32(bytes, 36, order),
            tcpi_fackets: read_u32(bytes, 40, order),
            tcpi_last_data_sent: read_u32(bytes, 44, order),
            tcpi_last_ack_sent: read_u32(bytes, 48, order),
            tcpi_last_data_recv: read_u32(bytes, 52, order),
            tcpi_last_ack_recv: read_u32(bytes, 56, order),
            tcpi_pmtu: read_u32(bytes, 60, order),
            tcpi_rcv_ssthresh: read_u32(bytes, 64, order),
            tcpi_rtt: read_u32(bytes, 68, order),
            tcpi_rttvar: read_u32(bytes, 72, order),
            tcpi_snd_ssthresh: read_u32(bytes, 76, order),
            tcpi_snd_cwnd: read_u32(bytes, 80, order),
            tcpi_advmss: read_u32(bytes, 84, order),
            tcpi_reordering: read_u32(bytes, 88, order),
            tcpi_rcv_rtt: read_u32(bytes, 92, order),
            tcpi_rcv_space: read_u32(bytes, 96, order),
            tcpi_total_retrans: read_u32(bytes, 100, order),
            tcpi_pacing_rate: read_u64(bytes, 104, order),
            tcpi_max_pacing_rate: read_u64(bytes, 112, order),
            tcpi_bytes_acked: read_u64(bytes, 120, order),
            tcpi_bytes_received: read_u64(bytes, 128, order),
            tcpi_segs_out: read_u32(bytes, 136, order),
            tcpi_segs_in: read_u32(bytes, 140, order),
            tcpi_notsent_bytes: read_u32(bytes, 144, order),
            tcpi_min_rtt: read_u32(bytes, 148, order),
            tcpi_data_segs_in: read_u32(bytes, 152, order),
            tcpi_data_segs_out: read_u32(bytes, 156, order),
            tcpi_delivery_rate: read_u64(bytes, 160, order),
            tcpi_busy_time: read_u64(bytes, 168, order),
            tcpi_rwnd_limited: read_u64(bytes, 176, order),
            tcpi_sndbuf_limited: read_u64(bytes, 184, order),
            tcpi_delivered: read_u32(bytes, 192, order),
            tcpi_delivered_ce: read_u32(bytes, 196, order),
            tcpi_bytes_sent: read_u64(bytes, 200, order),
            tcpi_bytes_retrans: read_u64(bytes, 208, order),
            tcpi_dsack_dups: read_u32(bytes, 216, order),
            tcpi_reord_seen: read_u32(bytes, 220, order),
            tcpi_rcv_ooopack: read_u32(bytes, 224, order),
            tcpi_snd_wnd: read_u32(bytes, 228, order),
            tcpi_rcv_wnd: read_u32(bytes, 232, order),
        }
    }
}

/// Starts reading the kernel's account of a connection. Only Linux gives one; elsewhere it is
/// all zeros.
pub fn get_tcp_info(platform: Platform) -> (r: Start<TCP_INFO>)
    ensures
        r == (if platform is Linux {
            Start::Ask(
                GetOpt { level: Level::Tcp, name: OptName::TcpInfo, size: tcp_info_len() as u32 },
            )
        } else {
            Start::Known(zeroed())
        }),
{
    match platform {
        Platform::Linux => Start::Ask(get_opt(Level::Tcp, OptName::TcpInfo, TCP_INFO::len())),
        _ => Start::Known(TCP_INFO::new()),
    }
}

/// Takes the reply to the request of [`get_tcp_info`].
pub fn tcp_info_reply(order: ByteOrder, reply: Result<Vec<u8>, OsError>) -> (r: Result<
    TCP_INFO,
    IoError,
>)
    ensures
        r == (match sized_reply(tcp_info_len() as u32, reply) {
            Ok(bytes) => Ok::<TCP_INFO, IoError>(tcp_info_at(bytes@, order)),
            Err(e) => Err(e),
        }),
        r is Ok <==> reply is Ok && reply->Ok_0@.len() == (if align_of::<u64>() == 8 {
            240int
        } else {
            236
        }),
{
    match get_opt_sized(TCP_INFO::len(), reply) {
        Ok(bytes) => Ok(TCP_INFO::read(&bytes, order)),
        Err(e) => Err(e),
    }
}

/// Bytes of nothing but zeros are read as the zeroed out [`TCP_INFO`].
pub proof fn law_zero_bytes_are_zeroed(bytes: Seq<u8>, order: ByteOrder)
    requires
        bytes.len() >= TCP_INFO_FIELDS_LEN,
        forall|i: int| 0 <= i < bytes.len() ==> bytes[i] == 0,
    ensures
        tcp_info_at(bytes, order) == zeroed(),
{
    assert forall|at: int| 0 <= at && at + 4 <= bytes.len() implies #[trigger] u32_at(
        bytes,
        at,
        order,
    ) == 0 by {
        lemma_number_of_zeros(order, bytes.subrange(at, at + 4));
    }
    assert forall|at: int| 0 <= at && at + 8 <= bytes.len() implies #[trigger] u64_at(
        bytes,
        at,
        order,
    ) == 0 by {
        lemma_number_of_zeros(order, bytes.subrange(at, at + 8));
    }
}

/// Writing the fields one behind the other, in the order in which they are declared and each in
/// its own width, gives back the bytes that they were read from.
pub proof fn law_fields_stand_in_order(bytes: Seq<u8>, order: ByteOrder)
    requires
        bytes.len() >= 236,
    ensures
        ({
            let info = tcp_info_at(bytes, order);
            Seq::<u8>::empty()
                + spell(order, 1, info.tcpi_state as nat)
                + spell(order, 1, info.tcpi_ca_state as nat)
                + spell(order, 1, info.tcpi_retransmits as nat)
                + spell(order, 1, info.tcpi_probes as nat)
                + spell(order, 1, info.tcpi_backoff as nat)
                + spell(order, 1, info.tcpi_options as nat)
                + spell(order, 1, info.tcpi_snd_wscale_4_rcv_wscale_4 as nat)
                + spell(order, 1, info.tcpi_delivery_rate_app_limited as nat)
                + spell(order, 4, info.tcpi_rto as nat)
                + spell(order, 4, info.tcpi_ato as nat)
                + spell(order, 4, info.tcpi_snd_mss as nat)
                + spell(order, 4, info.tcpi_rcv_mss as nat)
                + spell(order, 4, info.tcpi_unacked as nat)
                + spell(order, 4, info.tcpi_sacked as nat)
                + spell(order, 4, info.tcpi_lost as nat)
                + spell(order, 4, info.tcpi_retrans as nat)
                + spell(order, 4, info.tcpi_fackets as nat)
                + spell(order, 4, info.tcpi_last_data_sent as nat)
                + spell(order, 4, info.tcpi_last_ack_sent as nat)
                + spell(order, 4, info.tcpi_last_data_recv as nat)
                + spell(order, 4, info.tcpi_last_ack_recv as nat)
                + spell(order, 4, info.tcpi_pmtu as nat)
                + spell(order, 4, info.tcpi_rcv_ssthresh as nat)
                + spell(order, 4, info.tcpi_rtt as nat)
                + spell(order, 4, info.tcpi_rttvar as nat)
                + spell(order, 4, info.tcpi_snd_ssthresh as nat)
                + spell(order, 4, info.tcpi_snd_cwnd as nat)
                + spell(order, 4, info.tcpi_advmss as nat)
                + spell(order, 4, info.tcpi_reordering as nat)
                + spell(order, 4, info.tcpi_rcv_rtt as nat)
                + spell(order, 4, info.tcpi_rcv_space as nat)
                + spell(order, 4, info.tcpi_total_retrans as nat)
                + spell(order, 8, info.tcpi_pacing_rate as nat)
                + spell(order, 8, info.tcpi_max_pacing_rate as nat)
                + spell(order, 8, info.tcpi_bytes_acked as nat)
                + spell(order, 8, info.tcpi_bytes_received as nat)
                + spell(order, 4, info.tcpi_segs_out as nat)
                + spell(order, 4, info.tcpi_segs_in as nat)
                + spell(order, 4, info.tcpi_notsent_bytes as nat)
                + spell(order, 4, info.tcpi_min_rtt as nat)
                + spell(order, 4, info.tcpi_data_segs_in as nat)
                + spell(order, 4, info.tcpi_data_segs_out as nat)
                + spell(order, 8, info.tcpi_delivery_rate as nat)
                + spell(order, 8, info.tcpi_busy_time as nat)
                + spell(order, 8, info.tcpi_rwnd_limited as nat)
                + spell(order, 8, info.tcpi_sndbuf_limited as nat)
                + spell(order, 4, info.tcpi_delivered as nat)
                + spell(order, 4, info.tcpi_delivered_ce as nat)
                + spell(order, 8, info.tcpi_bytes_sent as nat)
                + spell(order, 8, info.tcpi_bytes_retrans as nat)
                + spell(order, 4, info.tcpi_dsack_dups as nat)
                + spell(order, 4, info.tcpi_reord_seen as nat)
                + spell(order, 4, info.tcpi_rcv_ooopack as nat)
                + spell(order, 4, info.tcpi_snd_wnd as nat)
                + spell(order, 4, info.tcpi_rcv_wnd as nat)
                == bytes.take(236)
        }),
{
    let info = tcp_info_at(bytes, order);
    assert(bytes.take(0) =~= Seq::<u8>::empty());
    lemma_spell_u8(bytes, 0, order);
    lemma_spell_u8(bytes, 1, order);
    lemma_spell_u8(bytes, 2, order);
    lemma_spell_u8(bytes, 3, order);
    lemma_spell_u8(bytes, 4, order);
    lemma_spell_u8(bytes, 5, order);
    lemma_spell_u8(bytes, 6, order);
    lemma_spell_u8(bytes, 7, order);
    lemma_spell_u32(bytes, 8, order);
    lemma_spell_u32(bytes, 12, order);
    lemma_spell_u32(bytes, 16, order);
    lemma_spell_u32(bytes, 20, order);
    lemma_spell_u32(bytes, 24, order);
    lemma_spell_u32(bytes, 28, order);
    lemma_spell_u32(bytes, 32, order);
    lemma_spell_u32(bytes, 36, order);
    lemma_spell_u32(bytes, 40, order);
    lemma_spell_u32(bytes, 44, order);
    lemma_spell_u32(bytes, 48, order);
    lemma_spell_u32(bytes, 52, order);
    lemma_spell_u32(bytes, 56, order);
    lemma_spell_u32(bytes, 60, order);
    lemma_spell_u32(bytes, 64, order);
    lemma_spell_u32(bytes, 68, order);
    lemma_spell_u32(bytes, 72, order);
    lemma_spell_u32(bytes, 76, order);
    lemma_spell_u32(bytes, 80, order);
    lemma_spell_u32(bytes, 84, order);
    lemma_spell_u32(bytes, 88, order);
    lemma_spell_u32(bytes, 92, order);
    lemma_spell_u32(bytes, 96, order);
    lemma_spell_u32(bytes, 100, order);
    lemma_spell_u64(bytes, 104, order);
    lemma_spell_u64(bytes, 112, order);
    lemma_spell_u64(bytes, 120, order);
    lemma_spell_u64(bytes, 128, order);
    lemma_spell_u32(bytes, 136, order);
    lemma_spell_u32(bytes, 140, order);
    lemma_spell_u32(bytes, 144, order);
    lemma_spell_u32(bytes, 148, order);
    lemma_spell_u32(bytes, 152, order);
    lemma_spell_u32(bytes, 156, order);
    lemma_spell_u64(bytes, 160, order);
    lemma_spell_u64(bytes, 168, order);
    lemma_spell_u64(bytes, 176, order);
    lemma_spell_u64(bytes, 184, order);
    lemma_spell_u32(bytes, 192, order);
    lemma_spell_u32(bytes, 196, order);
    lemma_spell_u64(bytes, 200, order);
    lemma_spell_u64(bytes, 208, order);
    lemma_spell_u32(bytes, 216, order);
    lemma_spell_u32(bytes, 220, order);
    lemma_spell_u32(bytes, 224, order);
    lemma_spell_u32(bytes, 228, order);
    lemma_spell_u32(bytes, 232, order);
}

/// Reading loses nothing: replies that are read as the same [`TCP_INFO`] hold the same bytes
/// wherever it has a field.
pub proof fn law_read_is_faithful(a: Seq<u8>, b: Seq<u8>, order: ByteOrder)
    requires
        a.len() >= TCP_INFO_FIELDS_LEN,
        b.len() >= TCP_INFO_FIELDS_LEN,
        tcp_info_at(a, order) == tcp_info_at(b, order),
    ensures
        a.take(TCP_INFO_FIELDS_LEN as int) == b.take(TCP_INFO_FIELDS_LEN as int),
{
    let x = tcp_info_at(a, order);
    let y = tcp_info_at(b, order);
    assert(x.tcpi_state == y.tcpi_state);
    assert(x.tcpi_ca_state == y.tcpi_ca_state);
    assert(x.tcpi_retransmits == y.tcpi_retransmits);
    assert(x.tcpi_probes == y.tcpi_probes);
    assert(x.tcpi_backoff == y.tcpi_backoff);
    assert(x.tcpi_options == y.tcpi_options);
    assert(x.tcpi_snd_wscale_4_rcv_wscale_4 == y.tcpi_snd_wscale_4_rcv_wscale_4);
    assert(x.tcpi_delivery_rate_app_limited == y.tcpi_delivery_rate_app_limited);
    lemma_u32_field(a, b, 8, order);
    lemma_u32_field(a, b, 12, order);
    lemma_u32_field(a, b, 16, order);
    lemma_u32_field(a, b, 20, order);
    lemma_u32_field(a, b, 24, order);
    lemma_u32_field(a, b, 28, order);
    lemma_u32_field(a, b, 32, order);
    lemma_u32_field(a, b, 36, order);
    lemma_u32_field(a, b, 40, order);
    lemma_u32_field(a, b, 44, order);
    lemma_u32_field(a, b, 48, order);
    lemma_u32_field(a, b, 52, order);
    lemma_u32_field(a, b, 56, order);
    lemma_u32_field(a, b, 60, order);
    lemma_u32_field(a, b, 64, order);
    lemma_u32_field(a, b, 68, order);
    lemma_u32_field(a, b, 72, order);
    lemma_u32_field(a, b, 76, order);
    lemma_u32_field(a, b, 80, order);
    lemma_u32_field(a, b, 84, order);
    lemma_u32_field(a, b, 88, order);
    lemma_u32_field(a, b, 92, order);
    lemma_u32_field(a, b, 96, order);
    lemma_u32_field(a, b, 100, order);
    lemma_u64_field(a, b, 104, order);
    lemma_u64_field(a, b, 112, order);
    lemma_u64_field(a, b, 120, order);
    lemma_u64_field(a, b, 128, order);
    lemma_u32_field(a, b, 136, order);
    lemma_u32_field(a, b, 140, order);
    lemma_u32_field(a, b, 144, order);
    lemma_u32_field(a, b, 148, order);
    lemma_u32_field(a, b, 152, order);
    lemma_u32_field(a, b, 156, order);
    lemma_u64_field(a, b, 160, order);
    lemma_u64_field(a, b, 168, order);
    lemma_u64_field(a, b, 176, order);
    lemma_u64_field(a, b, 184, order);
    lemma_u32_field(a, b, 192, order);
    lemma_u32_field(a, b, 196, order);
    lemma_u64_field(a, b, 200, order);
    lemma_u64_field(a, b, 208, order);
    lemma_u32_field(a, b, 216, order);
    lemma_u32_field(a, b, 220, order);
    lemma_u32_field(a, b, 224, order);
    lemma_u32_field(a, b, 228, order);
    lemma_u32_field(a, b, 232, order);
    assert(a.take(TCP_INFO_FIELDS_LEN as int) =~= b.take(TCP_INFO_FIELDS_LEN as int));
}

} // verus!
