use vstd::prelude::*;

verus! {

/// The port the debug server binds by default.
pub const DEBUG_SERVER_PORT: u16 = 10003;

/// The decimal digits of `n`, most significant first, as ASCII bytes.
pub open spec fn dec_digits_spec(n: nat) -> Seq<u8>
    decreases n,
{
    if n < 10 {
        seq![(n + 48) as u8]
    } else {
        dec_digits_spec(n / 10).push((n % 10 + 48) as u8)
    }
}

/// The decimal digits of a port number, most significant first, as ASCII
/// bytes.
pub fn port_decimal(port: u16) -> (r: Vec<u8>)
    ensures
        r@ == dec_digits_spec(port as nat),
    decreases port,
{
    if port < 10 {
        let mut r: Vec<u8> = Vec::new();
        r.push((port as u8) + 48);
        proof {
            assert(r@ =~= dec_digits_spec(port as nat));
        }
        r
    } else {
        let mut r = port_decimal(port / 10);
        r.push(((port % 10) as u8) + 48);
        r
    }
}

/// The fixed prefix of the debug server's listen address: every interface.
pub open spec fn bind_prefix_spec() -> Seq<u8> {
    seq![
        '0' as u8,
        '.' as u8,
        '0' as u8,
        '.' as u8,
        '0' as u8,
        '.' as u8,
        '0' as u8,
        ':' as u8,
    ]
}

/// The listen address handed to the spawned debug server: every interface,
/// at the given port, as ASCII bytes.
pub fn gdbserver_bind_addr(port: u16) -> (r: Vec<u8>)
    ensures
        r@ == bind_prefix_spec() + dec_digits_spec(port as nat),
{
    let mut r: Vec<u8> = Vec::new();
    r.push('0' as u8);
    r.push('.' as u8);
    r.push('0' as u8);
    r.push('.' as u8);
    r.push('0' as u8);
    r.push('.' as u8);
    r.push('0' as u8);
    r.push(':' as u8);
    proof {
        assert(r@ =~= bind_prefix_spec());
    }
    let digits = port_decimal(port);
    let mut i: usize = 0;
    while i < digits.len()
        invariant
            i <= digits@.len(),
            digits@ == dec_digits_spec(port as nat),
            r@ == bind_prefix_spec() + digits@.take(i as int),
        decreases digits@.len() - i,
    {
        r.push(digits[i]);
        proof {
            assert(r@ =~= bind_prefix_spec() + digits@.take(i + 1));
        }
        i += 1;
    }
    proof {
        assert(digits@.take(digits@.len() as int) =~= digits@);
    }
    r
}

} // verus!
