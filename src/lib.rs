//! Transport-neutral socket addresses, their text forms, and the TCP
//! listener/acceptor pair that tags accepted connections with them.
mod addr;
mod tcp;
mod text;

pub use addr::{
    app_text, from_ip, hex_list, ipv4_text, ipv6_text, is_ipv4_mapped, lemma_accessors_follow_predicates,
    lemma_one_family, lemma_std_round_trip, local_text, longest_zero_run, socket_text, trans_text, unix_text,
    v4_text, v6_text, zeros_ending, AppProto, IpSocketAddr, LocalAddr, SocketAddr, SocketAddrV4, SocketAddrV6,
    TransProto, UnixSocketAddr,
};
pub use tcp::{lemma_reported_addr_is_bound, tcp_local_addr, Accepted, TcpAcceptor, TcpListener};
pub use text::{dec_text, digit_char, hex_text};
