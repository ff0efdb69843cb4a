//! Instance identities and the resource names derived from them.
//!
//! An identity is the hyphenated lower-case text of a 128-bit value. Every
//! name an instance uses on the host is a function of that text alone.
use vstd::prelude::*;
use vstd::string::*;
use crate::text::decimal;

verus! {

/// Length of an identity's text.
pub const VM_ID_LENGTH: usize = 36;

/// Number of hexadecimal characters that make 32 bits: the leading eight name
/// the network link, the trailing eight select the subnet.
pub const VM_ID_PREFIX_LENGTH: usize = 8;

/// Whether `c` is a lower-case hexadecimal digit.
pub open spec fn is_lower_hex(c: char) -> bool {
    ('0' <= c && c <= '9') || ('a' <= c && c <= 'f')
}

/// The value of a lower-case hexadecimal digit.
pub open spec fn hex_digit_value(c: char) -> nat
    recommends
        is_lower_hex(c),
{
    if '0' <= c && c <= '9' {
        (c as u32 - '0' as u32) as nat
    } else {
        (c as u32 - 'a' as u32 + 10) as nat
    }
}

/// The number that a sequence of hexadecimal digits denotes, most significant
/// digit first.
pub open spec fn hex_value(s: Seq<char>) -> nat
    decreases s.len(),
{
    if s.len() == 0 {
        0
    } else {
        hex_value(s.drop_last()) * 16 + hex_digit_value(s.last())
    }
}

/// Whether position `i` of an identity holds a hyphen.
pub open spec fn is_hyphen_position(i: int) -> bool {
    i == 8 || i == 13 || i == 18 || i == 23
}

/// Whether `s` is the text of an identity: 36 characters, hyphens after the
/// 8th, 12th, 16th and 20th digit, lower-case hexadecimal digits elsewhere.
pub open spec fn is_vm_id(s: Seq<char>) -> bool {
    &&& s.len() == 36
    &&& forall|i: int|
        0 <= i < 36 ==> if is_hyphen_position(i) {
            #[trigger] s[i] == '-'
        } else {
            is_lower_hex(s[i])
        }
}

/// The leading eight digits of an identity.
pub open spec fn id_prefix(id: Seq<char>) -> Seq<char>
    recommends
        id.len() >= 8,
{
    id.subrange(0, 8)
}

/// The trailing eight digits of an identity: the low 32 bits of its value.
pub open spec fn id_low_digits(id: Seq<char>) -> Seq<char>
    recommends
        id.len() == 36,
{
    id.subrange(28, 36)
}

/// The third octet of an instance's private /24 network: the low 32 bits of
/// the identity, reduced modulo 254, plus one.
pub open spec fn subnet_octet(id: Seq<char>) -> nat
    recommends
        is_vm_id(id),
{
    hex_value(id_low_digits(id)) % 254 + 1
}

/// The first three octets of an instance's private /24 network.
pub open spec fn network_prefix_of(id: Seq<char>) -> Seq<char> {
    "172.16."@ + decimal(subnet_octet(id))
}

/// The address of the host's end of the link: host 1 of the network.
pub open spec fn host_ip_of(id: Seq<char>) -> Seq<char> {
    network_prefix_of(id) + ".1"@
}

/// The address the guest is booted with: host 2 of the network.
pub open spec fn guest_ip_of(id: Seq<char>) -> Seq<char> {
    network_prefix_of(id) + ".2"@
}

/// The name of the instance's network link.
pub open spec fn tap_interface_of(id: Seq<char>) -> Seq<char> {
    "tap-"@ + id_prefix(id)
}

/// The path of the hypervisor's control socket.
pub open spec fn socket_path_of(id: Seq<char>) -> Seq<char> {
    "/tmp/firecracker-"@ + id + ".socket"@
}

/// The path of the file that receives the hypervisor's standard output.
pub open spec fn stdout_log_path_of(id: Seq<char>) -> Seq<char> {
    "/tmp/fc-stdout-"@ + id + ".log"@
}

/// The path of the file that receives the hypervisor's standard error.
pub open spec fn stderr_log_path_of(id: Seq<char>) -> Seq<char> {
    "/tmp/fc-stderr-"@ + id + ".log"@
}

/// Reads one lower-case hexadecimal digit.
pub fn lower_hex_digit(c: char) -> (d: Option<u32>)
    ensures
        d.is_some() == is_lower_hex(c),
        d matches Some(v) ==> v == hex_digit_value(c) && v < 16,
{
    if '0' <= c && c <= '9' {
        Some(c as u32 - '0' as u32)
    } else if 'a' <= c && c <= 'f' {
        Some(c as u32 - 'a' as u32 + 10)
    } else {
        None
    }
}

/// Sixteen to the power `n`.
pub open spec fn pow16(n: nat) -> nat
    decreases n,
{
    if n == 0 {
        1
    } else {
        16 * pow16((n - 1) as nat)
    }
}

/// A number written with `n` hexadecimal digits is below sixteen to the `n`.
pub proof fn lemma_hex_value_bound(s: Seq<char>)
    requires
        forall|i: int| 0 <= i < s.len() ==> is_lower_hex(#[trigger] s[i]),
    ensures
        hex_value(s) < pow16(s.len()),
    decreases s.len(),
{
    if s.len() > 0 {
        lemma_hex_value_bound(s.drop_last());
        assert(hex_digit_value(s.last()) < 16);
    }
}

proof fn lemma_pow16_small(n: nat)
    requires
        n <= 8,
    ensures
        pow16(n) <= 4294967296,
        n < 8 ==> pow16(n) <= 268435456,
{
    assert(pow16(0) == 1);
    assert(pow16(1) == 16);
    assert(pow16(2) == 256);
    assert(pow16(3) == 4096);
    assert(pow16(4) == 65536);
    assert(pow16(5) == 1048576);
    assert(pow16(6) == 16777216);
    assert(pow16(7) == 268435456);
    assert(pow16(8) == 4294967296);
}

/// Decides whether `s` is the text of an identity.
pub fn is_valid_vm_id(s: &str) -> (valid: bool)
    ensures
        valid == is_vm_id(s@),
{
    if s.unicode_len() != VM_ID_LENGTH {
        return false;
    }
    let mut i: usize = 0;
    while i < VM_ID_LENGTH
        invariant
            i <= 36,
            s@.len() == 36,
            forall|j: int|
                0 <= j < i ==> if is_hyphen_position(j) {
                    #[trigger] s@[j] == '-'
                } else {
                    is_lower_hex(s@[j])
                },
        decreases 36 - i,
    {
        let c = s.get_char(i);
        if i == 8 || i == 13 || i == 18 || i == 23 {
            if c != '-' {
                assert(is_hyphen_position(i as int));
                return false;
            }
        } else {
            if lower_hex_digit(c).is_none() {
                assert(!is_hyphen_position(i as int));
                return false;
            }
        }
        i += 1;
    }
    true
}

/// Computes the subnet octet of an identity: its trailing eight digits, the
/// low 32 bits of its value, read as a number, reduced modulo 254, plus one.
pub fn subnet_id(id: &str) -> (octet: u32)
    requires
        is_vm_id(id@),
    ensures
        octet == subnet_octet(id@),
        1 <= octet <= 254,
{
    let mut acc: u64 = 0;
    let mut i: usize = 0;
    while i < VM_ID_PREFIX_LENGTH
        invariant
            i <= 8,
            is_vm_id(id@),
            acc == hex_value(id@.subrange(28, 28 + i as int)),
            acc < pow16(i as nat),
        decreases 8 - i,
    {
        let c = id.get_char(28 + i);
        assert(!is_hyphen_position(28 + i as int));
        assert(is_lower_hex(id@[28 + i as int]));
        let d = lower_hex_digit(c);
        let v: u32 = match d {
            Some(v) => v,
            None => 0,
        };
        proof {
            lemma_pow16_small(i as nat);
            let next = id@.subrange(28, 28 + i + 1);
            assert(next.drop_last() =~= id@.subrange(28, 28 + i as int));
            assert(next.last() == id@[28 + i as int]);
        }
        acc = acc * 16 + v as u64;
        i += 1;
    }
    proof {
        lemma_pow16_small(8);
    }
    (acc % 254 + 1) as u32
}

/// Text that is framed by the same prefix and suffix is equal only where the
/// framed pieces are equal.
pub proof fn lemma_framing_injective(prefix: Seq<char>, a: Seq<char>, b: Seq<char>, suffix: Seq<char>)
    requires
        prefix + a + suffix == prefix + b + suffix,
    ensures
        a == b,
{
    let x = prefix + a + suffix;
    let y = prefix + b + suffix;
    assert(x.len() == y.len());
    assert(a.len() == b.len());
    assert forall|i: int| 0 <= i < a.len() implies a[i] == b[i] by {
        assert(x[prefix.len() + i] == a[i]);
        assert(y[prefix.len() + i] == b[i]);
    }
    assert(a =~= b);
}

/// The subnet octet of every identity lies between 1 and 254. The host's
/// address is host 1 and the guest's address host 2 of one and the same /24
/// network, whose third octet is the subnet octet.
pub proof fn lemma_subnet_derivation(id: Seq<char>)
    ensures
        1 <= subnet_octet(id) <= 254,
        host_ip_of(id) == "172.16."@ + decimal(subnet_octet(id)) + ".1"@,
        guest_ip_of(id) == "172.16."@ + decimal(subnet_octet(id)) + ".2"@,
        host_ip_of(id).subrange(0, host_ip_of(id).len() - 2) == network_prefix_of(id),
        guest_ip_of(id).subrange(0, guest_ip_of(id).len() - 2) == network_prefix_of(id),
        host_ip_of(id).subrange(host_ip_of(id).len() - 2, host_ip_of(id).len() as int) == ".1"@,
        guest_ip_of(id).subrange(guest_ip_of(id).len() - 2, guest_ip_of(id).len() as int)
            == ".2"@,
{
    reveal_strlit(".1");
    reveal_strlit(".2");
    let net = network_prefix_of(id);
    let host = host_ip_of(id);
    let guest = guest_ip_of(id);
    assert(".1"@.len() == 2);
    assert(".2"@.len() == 2);
    assert(host.subrange(0, host.len() - 2) =~= net);
    assert(guest.subrange(0, guest.len() - 2) =~= net);
    assert(host.subrange(host.len() - 2, host.len() as int) =~= ".1"@);
    assert(guest.subrange(guest.len() - 2, guest.len() as int) =~= ".2"@);
}

/// Distinct identities never share a control socket or a log file, nor does
/// one instance's file of one kind coincide with its file of another kind.
pub proof fn lemma_paths_distinct(a: Seq<char>, b: Seq<char>)
    requires
        a != b,
    ensures
        socket_path_of(a) != socket_path_of(b),
        stdout_log_path_of(a) != stdout_log_path_of(b),
        stderr_log_path_of(a) != stderr_log_path_of(b),
{
    if socket_path_of(a) == socket_path_of(b) {
        lemma_framing_injective("/tmp/firecracker-"@, a, b, ".socket"@);
    }
    if stdout_log_path_of(a) == stdout_log_path_of(b) {
        lemma_framing_injective("/tmp/fc-stdout-"@, a, b, ".log"@);
    }
    if stderr_log_path_of(a) == stderr_log_path_of(b) {
        lemma_framing_injective("/tmp/fc-stderr-"@, a, b, ".log"@);
    }
}

/// The three files of one instance are three different files, and no file of
/// one kind is another instance's file of another kind.
pub proof fn lemma_kinds_distinct(a: Seq<char>, b: Seq<char>)
    ensures
        socket_path_of(a) != stdout_log_path_of(b),
        socket_path_of(a) != stderr_log_path_of(b),
        stdout_log_path_of(a) != stderr_log_path_of(b),
{
    reveal_strlit("/tmp/firecracker-");
    reveal_strlit("/tmp/fc-stdout-");
    reveal_strlit("/tmp/fc-stderr-");
    let socket = socket_path_of(a);
    let out_a = stdout_log_path_of(a);
    let out_b = stdout_log_path_of(b);
    let err_b = stderr_log_path_of(b);
    assert(socket[6] == 'i');
    assert(out_a[6] == 'c');
    assert(out_b[6] == 'c');
    assert(err_b[6] == 'c');
    assert(out_a[11] == 'o');
    assert(err_b[11] == 'e');
}

/// Two identities share a link name exactly where they share their leading
/// eight digits.
pub proof fn lemma_link_names(a: Seq<char>, b: Seq<char>)
    ensures
        (tap_interface_of(a) == tap_interface_of(b)) == (id_prefix(a) == id_prefix(b)),
{
    if tap_interface_of(a) == tap_interface_of(b) {
        assert("tap-"@ + id_prefix(a) + Seq::<char>::empty() =~= tap_interface_of(a));
        assert("tap-"@ + id_prefix(b) + Seq::<char>::empty() =~= tap_interface_of(b));
        lemma_framing_injective("tap-"@, id_prefix(a), id_prefix(b), Seq::<char>::empty());
    }
}

} // verus!
