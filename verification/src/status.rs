use vstd::prelude::*;
use vstd::string::StrSliceExecFns;
use vstd::string::StringExecFns;
use crate::text::{dec_chars, digit_to_char, u64_to_dec, strip_prefix, has_prefix};

verus! {

/// The uptime line: whole days, hours of the day and minutes of the
/// hour, each in decimal, as in `3d 4h 25m`.
pub open spec fn uptime_chars(secs: nat) -> Seq<char> {
    dec_chars(secs / 86400) + "d "@ + dec_chars((secs % 86400) / 3600) + "h "@ + dec_chars(
        (secs % 3600) / 60,
    ) + "m"@
}

/// Render whole uptime seconds as days, hours and minutes.
pub fn format_uptime(seconds: u64) -> (r: String)
    ensures
        r@ == uptime_chars(seconds as nat),
{
    let mut s = u64_to_dec(seconds / 86400);
    s.append("d ");
    s.append(u64_to_dec((seconds % 86400) / 3600).as_str());
    s.append("h ");
    s.append(u64_to_dec((seconds % 3600) / 60).as_str());
    s.append("m");
    proof {
        assert(s@ =~= uptime_chars(seconds as nat));
    }
    s
}

/// The memory line: used and total megabytes, as in `512/1024MB`.
pub open spec fn memory_chars(total: nat, free: nat) -> Seq<char>
    recommends
        free <= total,
{
    dec_chars(((total - free) as nat) / 1024 / 1024) + "/"@ + dec_chars(total / 1024 / 1024)
        + "MB"@
}

/// Render used and total memory, both given in bytes, in megabytes.
pub fn format_memory_info(total: u64, free: u64) -> (r: String)
    requires
        free <= total,
    ensures
        r@ == memory_chars(total as nat, free as nat),
{
    let used_mb = (total - free) / 1024 / 1024;
    let total_mb = total / 1024 / 1024;
    let mut s = u64_to_dec(used_mb);
    s.append("/");
    s.append(u64_to_dec(total_mb).as_str());
    s.append("MB");
    proof {
        assert(s@ =~= memory_chars(total as nat, free as nat));
    }
    s
}

/// The sum of the total sizes of a list of disks, each given as a
/// (total space, available space) pair in bytes.
pub open spec fn sum_space(disks: Seq<(u64, u64)>) -> nat
    decreases disks.len(),
{
    if disks.len() == 0 {
        0
    } else {
        disks.first().0 as nat + sum_space(disks.drop_first())
    }
}

/// The sum of the used sizes (total minus available) of a list of
/// disks.
pub open spec fn sum_used(disks: Seq<(u64, u64)>) -> nat
    decreases disks.len(),
{
    if disks.len() == 0 {
        0
    } else {
        (disks.first().0 - disks.first().1) as nat + sum_used(disks.drop_first())
    }
}

/// On disks whose available space fits inside their total space, the
/// used sum never exceeds the total sum.
pub proof fn lemma_sum_used_le_space(disks: Seq<(u64, u64)>)
    requires
        forall|i: int| 0 <= i < disks.len() ==> #[trigger] disks[i].1 <= disks[i].0,
    ensures
        sum_used(disks) <= sum_space(disks),
    decreases disks.len(),
{
    if disks.len() > 0 {
        assert(disks[0].1 <= disks[0].0);
        assert(forall|i: int|
            0 <= i < disks.drop_first().len() ==> (#[trigger] disks.drop_first()[i]).1
                <= disks.drop_first()[i].0) by {
            assert(forall|i: int|
                0 <= i < disks.drop_first().len() ==> #[trigger] disks.drop_first()[i] == disks[
                    i + 1
                ]);
        }
        lemma_sum_used_le_space(disks.drop_first());
    }
}

/// The disk line: used and total gigabytes over all disks, as in
/// `13/59GB`.
pub open spec fn disk_chars(disks: Seq<(u64, u64)>) -> Seq<char> {
    dec_chars(sum_used(disks) / 1024 / 1024 / 1024) + "/"@ + dec_chars(
        sum_space(disks) / 1024 / 1024 / 1024,
    ) + "GB"@
}

/// Render the summed disk usage, each disk given as a (total space,
/// available space) pair in bytes, in gigabytes.
pub fn format_disk_usage(disks: &Vec<(u64, u64)>) -> (r: String)
    requires
        forall|i: int| 0 <= i < disks@.len() ==> #[trigger] disks@[i].1 <= disks@[i].0,
        sum_space(disks@) <= u64::MAX,
    ensures
        r@ == disk_chars(disks@),
{
    let mut total_size: u64 = 0;
    let mut total_used: u64 = 0;
    let mut i: usize = 0;
    proof {
        assert(disks@.subrange(0, disks@.len() as int) =~= disks@);
        lemma_sum_used_le_space(disks@);
    }
    while i < disks.len()
        invariant
            i <= disks@.len(),
            forall|k: int| 0 <= k < disks@.len() ==> #[trigger] disks@[k].1 <= disks@[k].0,
            sum_space(disks@) <= u64::MAX,
            sum_used(disks@) <= sum_space(disks@),
            total_size + sum_space(disks@.subrange(i as int, disks@.len() as int)) == sum_space(
                disks@,
            ),
            total_used + sum_used(disks@.subrange(i as int, disks@.len() as int)) == sum_used(
                disks@,
            ),
            total_used <= total_size,
        decreases disks@.len() - i,
    {
        let d = disks[i];
        proof {
            let rest = disks@.subrange(i as int, disks@.len() as int);
            assert(rest.first() == disks@[i as int]);
            assert(rest.drop_first() =~= disks@.subrange(i + 1, disks@.len() as int));
        }
        total_size = total_size + d.0;
        total_used = total_used + (d.0 - d.1);
        i = i + 1;
    }
    proof {
        assert(disks@.subrange(disks@.len() as int, disks@.len() as int) =~= Seq::<(
            u64,
            u64,
        )>::empty());
    }
    let total_gb = total_size / 1024 / 1024 / 1024;
    let used_gb = total_used / 1024 / 1024 / 1024;
    let mut s = u64_to_dec(used_gb);
    s.append("/");
    s.append(u64_to_dec(total_gb).as_str());
    s.append("GB");
    proof {
        assert(s@ =~= disk_chars(disks@));
    }
    s
}

/// The temperature line: millidegrees rounded to one decimal place of
/// a degree, as in `48.1C`.
pub open spec fn temp_chars(millideg: nat) -> Seq<char> {
    let tenths = (millideg + 50) / 100;
    dec_chars(tenths / 10) + "."@ + seq![digit_to_char(tenths % 10)] + "C"@
}

/// Render a CPU temperature given in millidegrees, rounded to one
/// decimal place.
pub fn format_cpu_temp(millideg: u64) -> (r: String)
    requires
        millideg <= u64::MAX - 50,
    ensures
        r@ == temp_chars(millideg as nat),
{
    let tenths = (millideg + 50) / 100;
    let mut s = u64_to_dec(tenths / 10);
    s.append(".");
    let frac = tenths % 10;
    s.append(u64_to_dec(frac).as_str());
    proof {
        assert(dec_chars(tenths as nat % 10) =~= seq![digit_to_char(tenths as nat % 10)]);
    }
    s.append("C");
    proof {
        assert(s@ =~= temp_chars(millideg as nat));
    }
    s
}

/// One network interface, reduced to what the address pick reads: the
/// loopback flag and the IPv4 octets, if the interface has an IPv4
/// address.
#[derive(Clone, Copy, Debug, PartialEq, Eq)]
pub struct NetInterface {
    pub loopback: bool,
    pub ipv4: Option<(u8, u8, u8, u8)>,
}

/// Dotted-decimal rendering of four IPv4 octets.
pub open spec fn ipv4_chars(a: u8, b: u8, c: u8, d: u8) -> Seq<char> {
    dec_chars(a as nat) + "."@ + dec_chars(b as nat) + "."@ + dec_chars(c as nat) + "."@
        + dec_chars(d as nat)
}

/// The address the display shows: the IPv4 address of the first
/// non-loopback interface that has one, and the localhost address when
/// no interface qualifies.
pub open spec fn pick_ip_chars(ifs: Seq<NetInterface>) -> Seq<char>
    decreases ifs.len(),
{
    if ifs.len() == 0 {
        "127.0.0.1"@
    } else if !ifs.first().loopback && ifs.first().ipv4 is Some {
        let (a, b, c, d) = ifs.first().ipv4->0;
        ipv4_chars(a, b, c, d)
    } else {
        pick_ip_chars(ifs.drop_first())
    }
}

/// Render four IPv4 octets in dotted decimal.
pub fn format_ipv4(a: u8, b: u8, c: u8, d: u8) -> (r: String)
    ensures
        r@ == ipv4_chars(a, b, c, d),
{
    let mut s = u64_to_dec(a as u64);
    s.append(".");
    s.append(u64_to_dec(b as u64).as_str());
    s.append(".");
    s.append(u64_to_dec(c as u64).as_str());
    s.append(".");
    s.append(u64_to_dec(d as u64).as_str());
    proof {
        assert(s@ =~= ipv4_chars(a, b, c, d));
    }
    s
}

/// Pick the shown IPv4 address: the first non-loopback interface with
/// one, else localhost.
pub fn pick_ip_address(interfaces: &Vec<NetInterface>) -> (r: String)
    ensures
        r@ == pick_ip_chars(interfaces@),
{
    let mut i: usize = 0;
    proof {
        assert(interfaces@.subrange(0, interfaces@.len() as int) =~= interfaces@);
    }
    while i < interfaces.len()
        invariant
            i <= interfaces@.len(),
            pick_ip_chars(interfaces@) == pick_ip_chars(
                interfaces@.subrange(i as int, interfaces@.len() as int),
            ),
        decreases interfaces@.len() - i,
    {
        let itf = interfaces[i];
        proof {
            let rest = interfaces@.subrange(i as int, interfaces@.len() as int);
            assert(rest.first() == interfaces@[i as int]);
            assert(rest.drop_first() =~= interfaces@.subrange(
                i + 1,
                interfaces@.len() as int,
            ));
        }
        if !itf.loopback {
            match itf.ipv4 {
                Some((a, b, c, d)) => {
                    return format_ipv4(a, b, c, d);
                },
                None => {},
            }
        }
        i = i + 1;
    }
    proof {
        assert(interfaces@.subrange(interfaces@.len() as int, interfaces@.len() as int)
            =~= Seq::<NetInterface>::empty());
    }
    String::from_str("127.0.0.1")
}

/// The characters `str::trim` removes: exactly the set for which
/// `char::is_whitespace` holds, the Unicode white-space property.
pub open spec fn is_trim_space(c: char) -> bool {
    ||| c == ' '
    ||| c == '\t'
    ||| c == '\n'
    ||| c == '\u{000B}'
    ||| c == '\u{000C}'
    ||| c == '\r'
    ||| c == '\u{0085}'
    ||| c == '\u{00A0}'
    ||| c == '\u{1680}'
    ||| ('\u{2000}' <= c && c <= '\u{200A}')
    ||| c == '\u{2028}'
    ||| c == '\u{2029}'
    ||| c == '\u{202F}'
    ||| c == '\u{205F}'
    ||| c == '\u{3000}'
}

/// `s` without its leading trimmed whitespace.
pub open spec fn trim_front(s: Seq<char>) -> Seq<char>
    decreases s.len(),
{
    if s.len() > 0 && is_trim_space(s[0]) {
        trim_front(s.drop_first())
    } else {
        s
    }
}

/// `s` without its trailing trimmed whitespace.
pub open spec fn trim_back(s: Seq<char>) -> Seq<char>
    decreases s.len(),
{
    if s.len() > 0 && is_trim_space(s.last()) {
        trim_back(s.drop_last())
    } else {
        s
    }
}

/// `s` without leading or trailing trimmed whitespace.
pub open spec fn trimmed(s: Seq<char>) -> Seq<char> {
    trim_back(trim_front(s))
}

fn is_space_char(c: char) -> (b: bool)
    ensures
        b == is_trim_space(c),
{
    c == ' ' || c == '\t' || c == '\n' || c == '\u{000B}' || c == '\u{000C}' || c == '\r'
        || c == '\u{0085}' || c == '\u{00A0}' || c == '\u{1680}' || ('\u{2000}' <= c
        && c <= '\u{200A}') || c == '\u{2028}' || c == '\u{2029}' || c == '\u{202F}'
        || c == '\u{205F}' || c == '\u{3000}'
}

/// Cut leading and trailing whitespace, as `str::trim` does.
pub fn trim_whitespace<'a>(s: &'a str) -> (r: &'a str)
    ensures
        r@ == trimmed(s@),
{
    let len = s.unicode_len();
    let mut lo: usize = 0;
    proof {
        assert(s@.subrange(0, len as int) =~= s@);
    }
    while lo < len && is_space_char(s.get_char(lo))
        invariant
            lo <= len,
            len == s@.len(),
            trim_front(s@) == trim_front(s@.subrange(lo as int, len as int)),
        decreases len - lo,
    {
        proof {
            assert(s@.subrange(lo as int, len as int).drop_first() =~= s@.subrange(
                lo + 1,
                len as int,
            ));
        }
        lo = lo + 1;
    }
    proof {
        assert(trim_front(s@) =~= s@.subrange(lo as int, len as int));
    }
    let mut hi: usize = len;
    while hi > lo && is_space_char(s.get_char(hi - 1))
        invariant
            lo <= hi <= len,
            len == s@.len(),
            trim_front(s@) == trim_front(s@.subrange(lo as int, len as int)),
            trim_back(s@.subrange(lo as int, hi as int)) == trim_back(
                s@.subrange(lo as int, len as int),
            ),
        decreases hi,
    {
        proof {
            let cur = s@.subrange(lo as int, hi as int);
            assert(cur.last() == s@[hi - 1]);
            assert(cur.drop_last() =~= s@.subrange(lo as int, hi - 1));
        }
        hi = hi - 1;
    }
    proof {
        assert(trim_back(s@.subrange(lo as int, hi as int)) =~= s@.subrange(
            lo as int,
            hi as int,
        ));
    }
    s.substring_char(lo, hi)
}

/// The index of the first line break at or after `i`, or the length of
/// `s` where the last line runs out.
pub open spec fn line_end(s: Seq<char>, i: int) -> int
    decreases s.len() - i,
{
    if i < 0 || i >= s.len() {
        s.len() as int
    } else if s[i] == '\n' {
        i
    } else {
        line_end(s, i + 1)
    }
}

proof fn lemma_line_end_bounds(s: Seq<char>, i: int)
    requires
        0 <= i <= s.len(),
    ensures
        i <= line_end(s, i) <= s.len(),
    decreases s.len() - i,
{
    if i < s.len() && s[i] != '\n' {
        lemma_line_end_bounds(s, i + 1);
    }
}

/// What the resolver-file scan yields from line starts at `i` onward:
/// for the first line that begins with `search `, the rest of that
/// line with surrounding whitespace trimmed; nothing when no line
/// qualifies.
pub open spec fn search_domain_from(s: Seq<char>, i: int) -> Option<Seq<char>>
    decreases s.len() - i,
    via search_domain_from_dec
{
    if !(0 <= i <= s.len()) {
        None
    } else {
        let j = line_end(s, i);
        let line = s.subrange(i, j);
        if has_prefix(line, "search "@) {
            Some(trimmed(line.subrange("search "@.len() as int, line.len() as int)))
        } else if j >= s.len() {
            None
        } else {
            search_domain_from(s, j + 1)
        }
    }
}

#[via_fn]
proof fn search_domain_from_dec(s: Seq<char>, i: int) {
    if 0 <= i <= s.len() {
        lemma_line_end_bounds(s, i);
    }
}

/// The domain named by the first `search ` line of a resolver file, if
/// there is one, with surrounding whitespace trimmed.
pub open spec fn search_domain_chars(s: Seq<char>) -> Option<Seq<char>> {
    search_domain_from(s, 0)
}

/// Scan resolver-file contents for the first line that begins with
/// `search ` and hand back the named domain, trimmed.
pub fn find_search_domain(contents: &str) -> (r: Option<String>)
    ensures
        match r {
            Some(d) => search_domain_chars(contents@) == Some(d@),
            None => search_domain_chars(contents@) is None,
        },
{
    let len = contents.unicode_len();
    let mut i: usize = 0;
    while i < len
        invariant
            i <= len,
            len == contents@.len(),
            search_domain_from(contents@, 0) == search_domain_from(contents@, i as int),
        decreases len - i,
    {
        let mut j: usize = i;
        while j < len && contents.get_char(j) != '\n'
            invariant
                i <= j <= len,
                len == contents@.len(),
                line_end(contents@, i as int) == line_end(contents@, j as int),
            decreases len - j,
        {
            j = j + 1;
        }
        proof {
            assert(line_end(contents@, i as int) == j as int);
        }
        let line = contents.substring_char(i, j);
        match strip_prefix(line, "search ") {
            Some(rest) => {
                let d = trim_whitespace(rest);
                proof {
                    assert(line@ =~= contents@.subrange(i as int, j as int));
                }
                return Some(d.to_owned());
            },
            None => {},
        }
        proof {
            assert(line@ =~= contents@.subrange(i as int, j as int));
        }
        if j == len {
            return None;
        }
        i = j + 1;
    }
    proof {
        reveal_strlit("search ");
        assert(contents@.subrange(len as int, len as int) =~= Seq::<char>::empty());
        assert(search_domain_from(contents@, len as int) is None);
    }
    None
}

/// The domain the display falls back on: a non-empty candidate (what
/// `hostname -d` printed) is taken as it is; otherwise `local`.
pub fn domain_or_default(candidate: Option<String>) -> (r: String)
    ensures
        match candidate {
            Some(h) => if h@.len() > 0 {
                r@ == h@
            } else {
                r@ == "local"@
            },
            None => r@ == "local"@,
        },
{
    match candidate {
        Some(h) => {
            if h.as_str().unicode_len() > 0 {
                h
            } else {
                String::from_str("local")
            }
        },
        None => String::from_str("local"),
    }
}

/// The headline the display shows: host name, a dot, domain.
pub fn compose_title(host: &str, domain: &str) -> (r: String)
    ensures
        r@ == host@ + "."@ + domain@,
{
    let mut s = host.to_owned();
    s.append(".");
    s.append(domain);
    s
}

/// The body the display shows: the address line, then one labelled
/// line each for CPU temperature, uptime, memory and disk usage.
pub fn compose_body(ip: &str, cpu: &str, uptime: &str, memory: &str, disk: &str) -> (r: String)
    ensures
        r@ == ip@ + "\ncpu: "@ + cpu@ + "\nuptime: "@ + uptime@ + "\nmemory: "@ + memory@
            + "\ndisk: "@ + disk@,
{
    let mut s = ip.to_owned();
    s.append("\ncpu: ");
    s.append(cpu);
    s.append("\nuptime: ");
    s.append(uptime);
    s.append("\nmemory: ");
    s.append(memory);
    s.append("\ndisk: ");
    s.append(disk);
    s
}

} // verus!
