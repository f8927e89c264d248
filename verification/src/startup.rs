//! The address the server listens on.
use vstd::prelude::*;
use crate::configuration::Settings;
use crate::text::{
    all_decimal_digits, decimal, decimal_value, is_decimal_digit, law_decimal_round_trip, push_char,
    push_decimal,
};

verus! {

/// `host:port`, the port in decimal.
pub open spec fn address_of(host: Seq<char>, port: nat) -> Seq<char> {
    host + seq![':'] + decimal(port)
}

/// The address the server listens on: the configured host, a colon and the
/// configured port.
pub fn listen_address(settings: &Settings) -> (r: String)
    ensures
        r@ == address_of(settings.application.host@, settings.application.port as nat),
{
    let mut address = settings.application.host.clone();
    push_char(&mut address, ':');
    push_decimal(&mut address, settings.application.port as u32);
    address
}

/// The listening address starts with the host, then a colon, then nothing
/// but decimal digits that read back as the port.
pub proof fn law_listen_address_names_host_and_port(host: Seq<char>, port: nat)
    ensures
        address_of(host, port).len() > host.len() + 1,
        address_of(host, port).subrange(0, host.len() as int) == host,
        address_of(host, port)[host.len() as int] == ':',
        all_decimal_digits(address_of(host, port).subrange((host.len() + 1) as int, address_of(host, port).len() as int)),
        decimal_value(address_of(host, port).subrange((host.len() + 1) as int, address_of(host, port).len() as int))
            == port,
{
    law_decimal_round_trip(port);
    let a = address_of(host, port);
    assert(a.subrange(0, host.len() as int) =~= host);
    assert(a.subrange((host.len() + 1) as int, a.len() as int) =~= decimal(port));
    assert forall|i: int| 0 <= i < decimal(port).len() implies #[trigger] is_decimal_digit(decimal(port)[i]) by {
        assert('0' <= decimal(port)[i] <= '9');
    }
}

} // verus!
