//! The regular expressions by which addresses are recognised in log text.
//!
//! Each pattern is given twice: as a sequence of characters, which is what
//! contracts speak of, and as a function that builds the `String`.

use vstd::prelude::*;

verus! {

/// Sixteen digits in a row: an account number.
pub const ACCOUNT_NUMBER_PATTERN: &'static str = "\\d{16}";

/// Two hexadecimal digits.
pub const MAC_OCTET: &'static str = "[[:xdigit:]]{2}";

/// 250 to 255.
pub const ABOVE_250: &'static str = "25[0-5]";

/// 200 to 249.
pub const ABOVE_200: &'static str = "2[0-4][0-9]";

/// 100 to 199.
pub const ABOVE_100: &'static str = "1[0-9][0-9]";

/// 100 to 199 without 127.
pub const ABOVE_100_NOT_127: &'static str = "1(?:[01][0-9]|2[0-6]|2[89]|[3-9][0-9])";

/// 0 to 99, with or without a leading zero.
pub const ABOVE_0: &'static str = "0?[0-9][0-9]?";

/// One decimal number of an IPv4 address inside an IPv6 address.
pub const IPV4_SEGMENT: &'static str = "(25[0-5]|(2[0-4]|1{0,1}[0-9]){0,1}[0-9])";

/// One group of an IPv6 address.
pub const IPV6_SEGMENT: &'static str = "[0-9a-fA-F]{1,4}";

/// A link-local IPv6 address with its zone.
pub const IPV6_LINK_LOCAL: &'static str = "[Ff][Ee]80:(:[0-9a-fA-F]{0,4}){0,4}%[0-9a-zA-Z]{1,}";

/// What may stand before an address: nothing that could belong to one.
pub const BOUNDARY: &'static str = "[^0-9a-zA-Z.:]";

/// The pattern of a MAC address: five pairs of hexadecimal digits, each
/// followed by a colon or a dash, and a sixth pair.
pub open spec fn mac_regex() -> Seq<char> {
    "(?:"@ + MAC_OCTET@ + "[:-]){5}("@ + MAC_OCTET@ + ")"@
}

/// Builds the pattern of a MAC address.
pub fn build_mac_regex() -> (pattern: String)
    ensures
        pattern@ == mac_regex(),
{
    let mut pattern = String::from_str("(?:");
    pattern.append(MAC_OCTET);
    pattern.append("[:-]){5}(");
    pattern.append(MAC_OCTET);
    pattern.append(")");
    pattern
}

/// A group that matches one of four alternatives.
pub open spec fn one_of(a: Seq<char>, b: Seq<char>, c: Seq<char>, d: Seq<char>) -> Seq<char> {
    "(?:"@ + a + "|"@ + b + "|"@ + c + "|"@ + d + ")"@
}

fn build_one_of(a: &str, b: &str, c: &str, d: &str) -> (pattern: String)
    ensures
        pattern@ == one_of(a@, b@, c@, d@),
{
    let mut pattern = String::from_str("(?:");
    pattern.append(a);
    pattern.append("|");
    pattern.append(b);
    pattern.append("|");
    pattern.append(c);
    pattern.append("|");
    pattern.append(d);
    pattern.append(")");
    pattern
}

/// The first number of an IPv4 address: 0 to 255, but not 127.
pub open spec fn ipv4_first_octet() -> Seq<char> {
    one_of(ABOVE_250@, ABOVE_200@, ABOVE_100_NOT_127@, ABOVE_0@)
}

/// Any other number of an IPv4 address: 0 to 255.
pub open spec fn ipv4_octet() -> Seq<char> {
    one_of(ABOVE_250@, ABOVE_200@, ABOVE_100@, ABOVE_0@)
}

/// The pattern of an IPv4 address that is not a loopback address.
pub open spec fn ipv4_regex() -> Seq<char> {
    "(?:"@ + ipv4_first_octet() + "\\."@ + ipv4_octet() + "\\."@ + ipv4_octet() + "\\."@
        + ipv4_octet() + ")"@
}

/// Builds the pattern of an IPv4 address.
pub fn build_ipv4_regex() -> (pattern: String)
    ensures
        pattern@ == ipv4_regex(),
{
    let first_octet = build_one_of(ABOVE_250, ABOVE_200, ABOVE_100_NOT_127, ABOVE_0);
    let ip_octet = build_one_of(ABOVE_250, ABOVE_200, ABOVE_100, ABOVE_0);
    let mut pattern = String::from_str("(?:");
    pattern.append(first_octet.as_str());
    pattern.append("\\.");
    pattern.append(ip_octet.as_str());
    pattern.append("\\.");
    pattern.append(ip_octet.as_str());
    pattern.append("\\.");
    pattern.append(ip_octet.as_str());
    pattern.append(")");
    pattern
}

/// An IPv4 address as it stands at the end of an IPv6 address.
pub open spec fn ipv4_tail() -> Seq<char> {
    "("@ + IPV4_SEGMENT@ + "\\.){3,3}"@ + IPV4_SEGMENT@
}

/// As many groups as `bounds` allows, each followed by a colon, then
/// `tail`.
pub open spec fn leading_groups(bounds: Seq<char>, tail: Seq<char>) -> Seq<char> {
    "("@ + IPV6_SEGMENT@ + ":){"@ + bounds + "}"@ + tail
}

/// Groups that follow the gap of a compressed address, each after a colon.
pub open spec fn trailing_groups(bounds: Seq<char>) -> Seq<char> {
    "(:"@ + IPV6_SEGMENT@ + "){"@ + bounds + "}"@
}

fn build_leading_groups(bounds: &str, tail: &str) -> (pattern: String)
    ensures
        pattern@ == leading_groups(bounds@, tail@),
{
    let mut pattern = String::from_str("(");
    pattern.append(IPV6_SEGMENT);
    pattern.append(":){");
    pattern.append(bounds);
    pattern.append("}");
    pattern.append(tail);
    pattern
}

fn build_trailing_groups(bounds: &str) -> (pattern: String)
    ensures
        pattern@ == trailing_groups(bounds@),
{
    let mut pattern = String::from_str("(:");
    pattern.append(IPV6_SEGMENT);
    pattern.append("){");
    pattern.append(bounds);
    pattern.append("}");
    pattern
}

/// All eight groups written out.
pub open spec fn ipv6_long() -> Seq<char> {
    leading_groups("7,7"@, IPV6_SEGMENT@)
}

/// Groups, then the gap at the very end.
pub open spec fn ipv6_compressed_1() -> Seq<char> {
    leading_groups("1,7"@, ":"@)
}

/// Up to six groups, the gap, one group.
pub open spec fn ipv6_compressed_2() -> Seq<char> {
    leading_groups("1,6"@, ":"@ + IPV6_SEGMENT@)
}

/// Up to five groups, the gap, up to two groups.
pub open spec fn ipv6_compressed_3() -> Seq<char> {
    leading_groups("1,5"@, trailing_groups("1,2"@))
}

/// Up to four groups, the gap, up to three groups.
pub open spec fn ipv6_compressed_4() -> Seq<char> {
    leading_groups("1,4"@, trailing_groups("1,3"@))
}

/// Up to three groups, the gap, up to four groups.
pub open spec fn ipv6_compressed_5() -> Seq<char> {
    leading_groups("1,3"@, trailing_groups("1,4"@))
}

/// Up to two groups, the gap, up to five groups.
pub open spec fn ipv6_compressed_6() -> Seq<char> {
    leading_groups("1,2"@, trailing_groups("1,5"@))
}

/// One group, the gap, up to six groups.
pub open spec fn ipv6_compressed_7() -> Seq<char> {
    IPV6_SEGMENT@ + ":("@ + trailing_groups("1,6"@) + ")"@
}

/// The gap first, then up to seven groups or nothing.
pub open spec fn ipv6_compressed_8() -> Seq<char> {
    ":("@ + trailing_groups("1,7"@) + "|:)"@
}

/// An IPv4 address mapped into IPv6.
pub open spec fn ipv6_ipv4_mapped() -> Seq<char> {
    "::([fF]{4}(:0{1,4}){0,1}:){0,1}"@ + ipv4_tail()
}

/// An IPv4 address embedded behind up to four groups.
pub open spec fn ipv6_ipv4_embedded() -> Seq<char> {
    leading_groups("1,4"@, ":"@ + ipv4_tail())
}

/// The pattern of an IPv6 address: every way of writing one, the longer
/// forms before the shorter.
pub open spec fn ipv6_regex() -> Seq<char> {
    ipv6_long() + "|"@ + IPV6_LINK_LOCAL@ + "|"@ + ipv6_ipv4_mapped() + "|"@
        + ipv6_ipv4_embedded() + "|"@ + ipv6_compressed_8() + "|"@ + ipv6_compressed_7() + "|"@
        + ipv6_compressed_6() + "|"@ + ipv6_compressed_5() + "|"@ + ipv6_compressed_4() + "|"@
        + ipv6_compressed_3() + "|"@ + ipv6_compressed_2() + "|"@ + ipv6_compressed_1()
}

fn build_ipv4_tail() -> (pattern: String)
    ensures
        pattern@ == ipv4_tail(),
{
    let mut pattern = String::from_str("(");
    pattern.append(IPV4_SEGMENT);
    pattern.append("\\.){3,3}");
    pattern.append(IPV4_SEGMENT);
    pattern
}

/// Builds the pattern of an IPv6 address.
pub fn build_ipv6_regex() -> (pattern: String)
    ensures
        pattern@ == ipv6_regex(),
{
    let ipv4_address = build_ipv4_tail();

    let long = build_leading_groups("7,7", IPV6_SEGMENT);
    let compressed_1 = build_leading_groups("1,7", ":");
    let one_group = String::from_str(":").concat(IPV6_SEGMENT);
    let compressed_2 = build_leading_groups("1,6", one_group.as_str());
    let compressed_3 = build_leading_groups("1,5", build_trailing_groups("1,2").as_str());
    let compressed_4 = build_leading_groups("1,4", build_trailing_groups("1,3").as_str());
    let compressed_5 = build_leading_groups("1,3", build_trailing_groups("1,4").as_str());
    let compressed_6 = build_leading_groups("1,2", build_trailing_groups("1,5").as_str());
    let mut compressed_7 = String::from_str(IPV6_SEGMENT);
    compressed_7.append(":(");
    compressed_7.append(build_trailing_groups("1,6").as_str());
    compressed_7.append(")");
    let mut compressed_8 = String::from_str(":(");
    compressed_8.append(build_trailing_groups("1,7").as_str());
    compressed_8.append("|:)");
    let mut ipv4_mapped = String::from_str("::([fF]{4}(:0{1,4}){0,1}:){0,1}");
    ipv4_mapped.append(ipv4_address.as_str());
    let embedded_tail = String::from_str(":").concat(ipv4_address.as_str());
    let ipv4_embedded = build_leading_groups("1,4", embedded_tail.as_str());

    let mut pattern = long;
    pattern.append("|");
    pattern.append(IPV6_LINK_LOCAL);
    pattern.append("|");
    pattern.append(ipv4_mapped.as_str());
    pattern.append("|");
    pattern.append(ipv4_embedded.as_str());
    pattern.append("|");
    pattern.append(compressed_8.as_str());
    pattern.append("|");
    pattern.append(compressed_7.as_str());
    pattern.append("|");
    pattern.append(compressed_6.as_str());
    pattern.append("|");
    pattern.append(compressed_5.as_str());
    pattern.append("|");
    pattern.append(compressed_4.as_str());
    pattern.append("|");
    pattern.append(compressed_3.as_str());
    pattern.append("|");
    pattern.append(compressed_2.as_str());
    pattern.append("|");
    pattern.append(compressed_1.as_str());
    pattern
}

/// The pattern of anything that names a host on a network: an IPv4, IPv6 or
/// MAC address that stands at the start of the text or behind a character
/// that cannot belong to one. That character is captured as `start`.
pub open spec fn network_regex() -> Seq<char> {
    "(?P<start>^|"@ + BOUNDARY@ + ")(?:"@ + ipv4_regex() + "|"@ + ipv6_regex() + "|"@
        + mac_regex() + ")"@
}

/// Builds the pattern of network addresses.
pub fn build_network_regex() -> (pattern: String)
    ensures
        pattern@ == network_regex(),
{
    let mut pattern = String::from_str("(?P<start>^|");
    pattern.append(BOUNDARY);
    pattern.append(")(?:");
    pattern.append(build_ipv4_regex().as_str());
    pattern.append("|");
    pattern.append(build_ipv6_regex().as_str());
    pattern.append("|");
    pattern.append(build_mac_regex().as_str());
    pattern.append(")");
    pattern
}

} // verus!
