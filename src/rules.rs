use vstd::prelude::*;
use crate::text::{decimal_of, decimal_string};

verus! {

/// One inbound firewall rule: a protocol and the port it opens.
#[derive(Clone, Debug)]
pub struct InboundRule {
    pub protocol: String,
    pub port_number: u16,
}

/// Why an inbound-rule text was rejected.
#[derive(Clone, Copy, Debug, PartialEq, Eq, Structural)]
pub enum RuleError {
    /// The text does not hold exactly one `:`.
    Format,
    /// The part after the `:` is not a port number.
    Port,
}

impl RuleError {
    /// The message shown to the operator.
    pub fn message(&self) -> (r: &'static str)
        ensures
            *self == RuleError::Format ==> r@ == "Inbound rule must be in format protocol:port"@,
            *self == RuleError::Port ==> r@ == "Invalid port number"@,
    {
        match self {
            RuleError::Format => "Inbound rule must be in format protocol:port",
            RuleError::Port => "Invalid port number",
        }
    }
}

pub open spec fn is_digit(c: char) -> bool {
    '0' <= c && c <= '9'
}

pub open spec fn all_digits(s: Seq<char>) -> bool {
    forall|k: int| 0 <= k < s.len() ==> is_digit(#[trigger] s[k])
}

/// The value of a string of decimal digits.
pub open spec fn digits_value(s: Seq<char>) -> nat
    decreases s.len(),
{
    if s.len() == 0 {
        0
    } else {
        digits_value(s.drop_last()) * 10 + ((s.last() as u32) - ('0' as u32)) as nat
    }
}

/// The digits of an unsigned number's text: a leading `+` is dropped.
pub open spec fn unsigned_digits(s: Seq<char>) -> Seq<char> {
    if s.len() > 0 && s[0] == '+' {
        s.drop_first()
    } else {
        s
    }
}

/// The text is a port number: an optional `+`, then at least one decimal
/// digit, with a value that fits in 16 bits.
pub open spec fn is_port_text(s: Seq<char>) -> bool {
    let d = unsigned_digits(s);
    d.len() > 0 && all_digits(d) && digits_value(d) <= 65535
}

/// `s` holds a `:` at `i` and nowhere else.
pub open spec fn single_colon_at(s: Seq<char>, i: int) -> bool {
    &&& 0 <= i < s.len()
    &&& s[i] == ':'
    &&& forall|j: int| 0 <= j < s.len() && j != i ==> s[j] != ':'
}

pub open spec fn has_single_colon(s: Seq<char>) -> bool {
    exists|i: int| single_colon_at(s, i)
}

proof fn lemma_prefix_value_le(s: Seq<char>, k: int)
    requires
        0 <= k <= s.len(),
        all_digits(s),
    ensures
        digits_value(s.subrange(0, k)) <= digits_value(s),
    decreases s.len(),
{
    if k == s.len() {
        assert(s.subrange(0, k) =~= s);
    } else {
        let t = s.drop_last();
        assert(all_digits(t)) by {
            assert forall|m: int| 0 <= m < t.len() implies is_digit(#[trigger] t[m]) by {
                assert(t[m] == s[m]);
            }
        }
        lemma_prefix_value_le(t, k);
        assert(t.subrange(0, k) =~= s.subrange(0, k));
    }
}

/// Reads a port number, as Rust reads a `u16` from text.
pub fn parse_port(s: &str) -> (r: Option<u16>)
    ensures
        r is Some <==> is_port_text(s@),
        r matches Some(p) ==> p as nat == digits_value(unsigned_digits(s@)),
{
    let n = s.unicode_len();
    let mut start: usize = 0;
    if n > 0 && s.get_char(0) == '+' {
        start = 1;
    }
    let ghost d = unsigned_digits(s@);
    assert(d =~= s@.subrange(start as int, n as int));
    if start == n {
        return None;
    }
    let mut value: u32 = 0;
    let mut k: usize = start;
    while k < n
        invariant
            start <= k <= n,
            n == s@.len(),
            d == s@.subrange(start as int, n as int),
            d == unsigned_digits(s@),
            all_digits(d.subrange(0, k - start)),
            value as nat == digits_value(d.subrange(0, k - start)),
            value <= 65535,
        decreases n - k,
    {
        let c = s.get_char(k);
        let ghost pre = d.subrange(0, k - start);
        let ghost next = d.subrange(0, k + 1 - start);
        assert(next.drop_last() =~= pre);
        assert(next.last() == c);
        if !('0' <= c && c <= '9') {
            assert(d[k - start] == c);
            assert(!is_digit(d[k - start]));
            assert(!all_digits(d));
            return None;
        }
        let v = value * 10 + ((c as u32) - ('0' as u32));
        assert(all_digits(next)) by {
            assert forall|m: int| 0 <= m < next.len() implies is_digit(#[trigger] next[m]) by {
                if m < pre.len() {
                    assert(next[m] == pre[m]);
                }
            }
        }
        assert(v as nat == digits_value(next));
        if v > 65535 {
            proof {
                if all_digits(d) {
                    lemma_prefix_value_le(d, k + 1 - start);
                }
            }
            return None;
        }
        value = v;
        k = k + 1;
    }
    assert(d.subrange(0, n - start) =~= d);
    Some(value as u16)
}

impl InboundRule {
    /// Reads a rule written `protocol:port`.
    pub fn from_str(s: &str) -> (r: Result<InboundRule, RuleError>)
        ensures
            r matches Ok(rule) ==> exists|i: int|
                #![trigger single_colon_at(s@, i)]
                {
                    &&& single_colon_at(s@, i)
                    &&& rule.protocol@ == s@.subrange(0, i)
                    &&& is_port_text(s@.subrange(i + 1, s@.len() as int))
                    &&& rule.port_number as nat == digits_value(
                        unsigned_digits(s@.subrange(i + 1, s@.len() as int)),
                    )
                },
            r == Err::<InboundRule, RuleError>(RuleError::Format) <==> !has_single_colon(s@),
            r == Err::<InboundRule, RuleError>(RuleError::Port) <==> exists|i: int|
                #![trigger single_colon_at(s@, i)]
                single_colon_at(s@, i) && !is_port_text(s@.subrange(i + 1, s@.len() as int)),
    {
        let n = s.unicode_len();
        let mut colons: usize = 0;
        let mut at: usize = 0;
        let mut k: usize = 0;
        while k < n
            invariant
                k <= n,
                n == s@.len(),
                colons <= k,
                colons == 0 ==> forall|j: int| 0 <= j < k ==> s@[j] != ':',
                colons == 1 ==> single_colon_at(s@.subrange(0, k as int), at as int),
                colons >= 2 ==> !has_single_colon(s@),
            decreases n - k,
        {
            let c = s.get_char(k);
            if c == ':' {
                if colons == 0 {
                    at = k;
                    colons = 1;
                } else if colons == 1 {
                    assert forall|i: int| !single_colon_at(s@, i) by {
                        if single_colon_at(s@, i) {
                            assert(s@.subrange(0, k as int)[at as int] == ':');
                        }
                    }
                    colons = 2;
                }
            }
            k = k + 1;
        }
        if colons != 1 {
            assert forall|i: int| !single_colon_at(s@, i) by {
                if single_colon_at(s@, i) && colons == 0 {
                    assert(s@[i] == ':');
                }
            }
            return Err(RuleError::Format);
        }
        assert(s@.subrange(0, n as int) =~= s@);
        assert(single_colon_at(s@, at as int));
        assert forall|i: int| single_colon_at(s@, i) implies i == at by {
            if i != at {
                assert(s@[at as int] == ':');
            }
        }
        let protocol = s.substring_char(0, at).to_string();
        let port_text = s.substring_char(at + 1, n);
        match parse_port(port_text) {
            Some(port_number) => Ok(InboundRule { protocol, port_number }),
            None => Err(RuleError::Port),
        }
    }
}

/// The JSON string literal that encodes `s`.
pub uninterp spec fn json_string_of(s: Seq<char>) -> Seq<char>;

/// Relies on `serde_json::to_string` on a `str`: the quoted, escaped JSON
/// string. It writes into a `Vec<u8>`, which cannot fail, so the error arm
/// is never taken.
#[verifier::external_body]
fn json_string(s: &str) -> (r: String)
    ensures
        r@ == json_string_of(s@),
{
    serde_json::to_string(s).unwrap_or_default()
}

/// The JSON object for one rule, given its protocol already encoded as a
/// JSON string.
pub open spec fn rule_json_of(quoted_protocol: Seq<char>, port: u16) -> Seq<char> {
    "{\"protocol\":"@ + quoted_protocol + ",\"port_number\":"@ + decimal_of(port as nat) + "}"@
}

/// The JSON objects of the rules, separated by commas.
pub open spec fn rule_items_of(rules: Seq<InboundRule>) -> Seq<char>
    decreases rules.len(),
{
    if rules.len() == 0 {
        Seq::empty()
    } else {
        let last = rule_json_of(json_string_of(rules.last().protocol@), rules.last().port_number);
        if rules.len() == 1 {
            last
        } else {
            rule_items_of(rules.drop_last()) + ","@ + last
        }
    }
}

/// The JSON array of the rules, as the templates read it.
pub open spec fn rules_json_of(rules: Seq<InboundRule>) -> Seq<char> {
    "["@ + rule_items_of(rules) + "]"@
}

/// Writes the JSON object of one rule, given its protocol already encoded as
/// a JSON string.
pub fn rule_json(quoted_protocol: &str, port: u16) -> (r: String)
    ensures
        r@ == rule_json_of(quoted_protocol@, port),
{
    let port_text = decimal_string(port as u64);
    String::from_str("{\"protocol\":").concat(quoted_protocol).concat(
        ",\"port_number\":",
    ).concat(port_text.as_str()).concat("}")
}

/// Writes the rules as a JSON array of objects with the fields `protocol`
/// and `port_number`.
pub fn rules_json(rules: &Vec<InboundRule>) -> (r: String)
    ensures
        r@ == rules_json_of(rules@),
{
    let mut items = String::new();
    let mut i: usize = 0;
    while i < rules.len()
        invariant
            i <= rules@.len(),
            items@ == rule_items_of(rules@.subrange(0, i as int)),
        decreases rules@.len() - i,
    {
        let quoted = json_string(rules[i].protocol.as_str());
        let item = rule_json(quoted.as_str(), rules[i].port_number);
        let ghost next = rules@.subrange(0, i + 1);
        assert(next.drop_last() =~= rules@.subrange(0, i as int));
        if i > 0 {
            items.append(",");
        }
        items.append(item.as_str());
        i = i + 1;
    }
    assert(rules@.subrange(0, rules@.len() as int) =~= rules@);
    String::from_str("[").concat(items.as_str()).concat("]")
}

/// The rule used when none is given: TCP on port 22.
pub fn resolve_default_inbound_rule() -> (r: Vec<InboundRule>)
    ensures
        r@.len() == 1,
        r@[0].protocol@ == "tcp"@,
        r@[0].port_number == 22,
{
    vec![InboundRule { protocol: "tcp".to_string(), port_number: 22 }]
}

} // verus!
