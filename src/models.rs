use vstd::prelude::*;

verus! {

/// The document that the firewall service returns for one firewall.
pub struct Firewall {
    pub firewall: FirewallRules,
}

/// A list of inbound rules, as read from the service or sent to it as a patch.
pub struct FirewallRules {
    pub inbound_rules: Vec<Rule>,
}

/// One inbound rule: a protocol, a port specification and the allowed sources.
pub struct Rule {
    pub protocol: String,
    pub ports: String,
    pub sources: Sources,
}

/// The source addresses that a rule allows.
pub struct Sources {
    pub addresses: Vec<String>,
}

/// A rule seen as plain text values.
pub struct RuleView {
    pub protocol: Seq<char>,
    pub ports: Seq<char>,
    pub addresses: Seq<Seq<char>>,
}

pub open spec fn texts(v: Seq<String>) -> Seq<Seq<char>> {
    v.map_values(|s: String| s@)
}

impl View for Rule {
    type V = RuleView;

    open spec fn view(&self) -> RuleView {
        RuleView {
            protocol: self.protocol@,
            ports: self.ports@,
            addresses: texts(self.sources.addresses@),
        }
    }
}

impl View for FirewallRules {
    type V = Seq<RuleView>;

    open spec fn view(&self) -> Seq<RuleView> {
        self.inbound_rules@.map_values(|r: Rule| r@)
    }
}

pub open spec fn digit_char(d: nat) -> char {
    if d == 0 {
        '0'
    } else if d == 1 {
        '1'
    } else if d == 2 {
        '2'
    } else if d == 3 {
        '3'
    } else if d == 4 {
        '4'
    } else if d == 5 {
        '5'
    } else if d == 6 {
        '6'
    } else if d == 7 {
        '7'
    } else if d == 8 {
        '8'
    } else {
        '9'
    }
}

/// The decimal text of a number, without sign or leading zeros.
pub open spec fn decimal(n: nat) -> Seq<char>
    decreases n,
{
    if n < 10 {
        seq![digit_char(n)]
    } else {
        decimal(n / 10) + seq![digit_char(n % 10)]
    }
}

/// The rule that allows `addresses` over TCP on `port`.
pub open spec fn port_rule(addresses: Seq<Seq<char>>, port: nat) -> RuleView {
    RuleView { protocol: "tcp"@, ports: decimal(port), addresses }
}

/// All source addresses of the rules whose port specification is exactly `ports`,
/// in the order of the rules.
pub open spec fn addresses_for_port(rules: Seq<RuleView>, ports: Seq<char>) -> Seq<Seq<char>>
    decreases rules.len(),
{
    if rules.len() == 0 {
        seq![]
    } else {
        let before = addresses_for_port(rules.drop_last(), ports);
        if rules.last().ports == ports {
            before + rules.last().addresses
        } else {
            before
        }
    }
}

fn digit_text(d: usize) -> (r: &'static str)
    requires
        d < 10,
    ensures
        r@ == seq![digit_char(d as nat)],
{
    proof {
        reveal_strlit("0");
        reveal_strlit("1");
        reveal_strlit("2");
        reveal_strlit("3");
        reveal_strlit("4");
        reveal_strlit("5");
        reveal_strlit("6");
        reveal_strlit("7");
        reveal_strlit("8");
        reveal_strlit("9");
    }
    match d {
        0 => "0",
        1 => "1",
        2 => "2",
        3 => "3",
        4 => "4",
        5 => "5",
        6 => "6",
        7 => "7",
        8 => "8",
        _ => "9",
    }
}

/// The port number written in decimal, as rules give their port specification.
pub fn port_text(port: usize) -> (r: String)
    ensures
        r@ == decimal(port as nat),
{
    let mut s = String::from_str(digit_text(port % 10));
    let mut n: usize = port / 10;
    while n > 0
        invariant
            n > 0 ==> decimal(port as nat) == decimal(n as nat) + s@,
            n == 0 ==> decimal(port as nat) == s@,
        decreases n,
    {
        let ghost old_s = s@;
        let d = digit_text(n % 10);
        s = String::from_str(d).concat(s.as_str());
        proof {
            if n >= 10 {
                assert(decimal(n as nat) == decimal((n / 10) as nat) + seq![digit_char((n % 10) as nat)]);
                assert(decimal(n as nat) + old_s == decimal((n / 10) as nat) + s@);
            } else {
                assert(n % 10 == n);
            }
        }
        n = n / 10;
    }
    s
}

impl FirewallRules {
    /// A patch of one TCP rule that allows `address` alone on `port`.
    pub fn new(address: String, port: usize) -> (r: FirewallRules)
        ensures
            r@ == seq![port_rule(seq![address@], port as nat)],
    {
        let ghost a = address@;
        let r = FirewallRules {
            inbound_rules: vec![
                Rule {
                    protocol: String::from_str("tcp"),
                    ports: port_text(port),
                    sources: Sources { addresses: vec![address] },
                },
            ],
        };
        assert(texts(r.inbound_rules[0].sources.addresses@) =~= seq![a]);
        assert(r@ =~= seq![port_rule(seq![a], port as nat)]);
        r
    }

    /// A patch of one TCP rule on `port` whose sources are `addresses`, in order.
    pub fn from_addresses(addresses: Vec<String>, port: usize) -> (r: FirewallRules)
        ensures
            r@ == seq![port_rule(texts(addresses@), port as nat)],
    {
        let ghost given = addresses@;
        let r = FirewallRules {
            inbound_rules: vec![
                Rule {
                    protocol: String::from_str("tcp"),
                    ports: port_text(port),
                    sources: Sources { addresses },
                },
            ],
        };
        assert(r@ =~= seq![port_rule(texts(given), port as nat)]);
        r
    }

    /// Every source address of the rules whose port specification is exactly
    /// `port` in decimal, rule after rule; a rule for a range of ports does not match.
    pub fn list_of_addresses(&self, port: usize) -> (r: Vec<String>)
        ensures
            texts(r@) == addresses_for_port(self@, decimal(port as nat)),
    {
        let key = port_text(port);
        let mut out: Vec<String> = Vec::new();
        let mut i: usize = 0;
        while i < self.inbound_rules.len()
            invariant
                i <= self.inbound_rules.len(),
                key@ == decimal(port as nat),
                texts(out@) == addresses_for_port(self@.take(i as int), key@),
            decreases self.inbound_rules.len() - i,
        {
            let rule = &self.inbound_rules[i];
            let ghost before = out@;
            proof {
                let t = self@.take(i as int + 1);
                assert(t.drop_last() =~= self@.take(i as int));
                assert(t.last() == rule@);
            }
            if rule.ports == key {
                let mut j: usize = 0;
                while j < rule.sources.addresses.len()
                    invariant
                        j <= rule.sources.addresses.len(),
                        texts(out@) == texts(before) + rule@.addresses.take(j as int),
                    decreases rule.sources.addresses.len() - j,
                {
                    let a = rule.sources.addresses[j].clone();
                    let ghost prev = out@;
                    out.push(a);
                    proof {
                        assert(texts(out@) =~= texts(prev) + seq![a@]);
                        assert(rule@.addresses.take(j as int + 1) =~= rule@.addresses.take(j as int)
                            + seq![a@]);
                    }
                    j += 1;
                }
                assert(rule@.addresses.take(j as int) =~= rule@.addresses);
            }
            i += 1;
        }
        assert(self@.take(i as int) =~= self@);
        out
    }
}

} // verus!
