use vstd::prelude::*;
use crate::provider::{default_instance_type_of, Provider};
use crate::request::{RunDeployParams, RunUndeployParams};
use crate::rules::InboundRule;
use crate::text::{decimal_of, decimal_string};

verus! {

/// The quoted, escaped form in which Rust's `Debug` shows a string.
pub uninterp spec fn debug_text_of(s: Seq<char>) -> Seq<char>;

/// Relies on the `Debug` formatting of `str`: the text in double quotes with
/// special characters escaped.
#[verifier::external_body]
fn debug_text(s: &str) -> (r: String)
    ensures
        r@ == debug_text_of(s@),
{
    format!("{:?}", s)
}

pub open spec fn bool_text_of(b: bool) -> Seq<char> {
    if b {
        "true"@
    } else {
        "false"@
    }
}

fn bool_text(b: bool) -> (r: &'static str)
    ensures
        r@ == bool_text_of(b),
{
    if b {
        "true"
    } else {
        "false"
    }
}

pub open spec fn provider_text_of(p: Provider) -> Seq<char> {
    match p {
        Provider::AWS => "AWS"@,
        Provider::GCP => "GCP"@,
        Provider::Hetzner => "Hetzner"@,
    }
}

fn provider_text(p: &Provider) -> (r: &'static str)
    ensures
        r@ == provider_text_of(*p),
{
    match p {
        Provider::AWS => "AWS",
        Provider::GCP => "GCP",
        Provider::Hetzner => "Hetzner",
    }
}

/// The instance class as shown: the given one in brackets, or the
/// provider's default.
pub open spec fn instance_text_of(o: Option<String>, p: Provider) -> Seq<char> {
    match o {
        Some(s) => "["@ + s@ + "]"@,
        None => default_instance_type_of(p),
    }
}

fn instance_text(o: &Option<String>, p: &Provider) -> (r: String)
    ensures
        r@ == instance_text_of(*o, *p),
{
    match o {
        Some(s) => String::from_str("[").concat(s.as_str()).concat("]"),
        None => crate::provider::resolve_default_instance_type(p),
    }
}

/// One rule as `Debug` shows it.
pub open spec fn rule_text_of(r: InboundRule) -> Seq<char> {
    "InboundRule { protocol: "@ + debug_text_of(r.protocol@) + ", port_number: "@ + decimal_of(
        r.port_number as nat,
    ) + " }"@
}

/// The rules as `Debug` shows a list: in brackets, separated by `, `.
pub open spec fn rule_list_items_of(rules: Seq<InboundRule>) -> Seq<char>
    decreases rules.len(),
{
    if rules.len() == 0 {
        Seq::empty()
    } else if rules.len() == 1 {
        rule_text_of(rules[0])
    } else {
        rule_list_items_of(rules.drop_last()) + ", "@ + rule_text_of(rules.last())
    }
}

fn rule_list_text(rules: &Vec<InboundRule>) -> (r: String)
    ensures
        r@ == "["@ + rule_list_items_of(rules@) + "]"@,
{
    let mut items = String::new();
    let mut i: usize = 0;
    while i < rules.len()
        invariant
            i <= rules@.len(),
            items@ == rule_list_items_of(rules@.subrange(0, i as int)),
        decreases rules@.len() - i,
    {
        let ghost next = rules@.subrange(0, i + 1);
        assert(next.drop_last() =~= rules@.subrange(0, i as int));
        if i > 0 {
            items.append(", ");
        }
        let protocol = debug_text(rules[i].protocol.as_str());
        let port = decimal_string(rules[i].port_number as u64);
        items.append("InboundRule { protocol: ");
        items.append(protocol.as_str());
        items.append(", port_number: ");
        items.append(port.as_str());
        items.append(" }");
        i = i + 1;
    }
    assert(rules@.subrange(0, rules@.len() as int) =~= rules@);
    String::from_str("[").concat(items.as_str()).concat("]")
}

/// The rules of a request as shown; the default rule when none were given.
pub open spec fn request_rules_text_of(o: Option<Vec<InboundRule>>) -> Seq<char> {
    match o {
        Some(v) => "["@ + rule_list_items_of(v@) + "]"@,
        None => "[InboundRule { protocol: "@ + debug_text_of("tcp"@) + ", port_number: 22 }]"@,
    }
}

/// The summary of a deployment request shown before acting.
pub open spec fn deploy_summary_of(q: RunDeployParams) -> Seq<char> {
    "Deploy params \n"@ + "  debug: "@ + bool_text_of(q.debug) + ",\n"@ + "  instance_type: "@
        + instance_text_of(q.instance_type, q.provider) + ",\n"@ + "  provider: "@
        + provider_text_of(q.provider) + ",\n"@ + "  region: "@ + match q.region {
        Some(g) => g@,
        None => "[Random]"@,
    } + ",\n"@ + "  script_path: "@ + match q.script_path {
        Some(s) => "Some("@ + debug_text_of(s@) + ")"@,
        None => "None"@,
    } + ",\n"@ + "  template_path: "@ + debug_text_of(q.template_path@) + "\n"@
        + "  inbound_rules: "@ + request_rules_text_of(q.inbound_rules) + "\n"@
        + "  ssh_public_key_path: "@ + debug_text_of(
        match q.ssh_public_key_path {
            Some(k) => k@,
            None => "[Default]"@,
        },
    ) + "\n"@
}

/// The summary of a teardown request shown before acting.
pub open spec fn undeploy_summary_of(q: RunUndeployParams) -> Seq<char> {
    "Undeploy params \n"@ + "  debug: "@ + bool_text_of(q.debug) + ",\n"@ + "  instance_type: "@
        + instance_text_of(q.instance_type, q.provider) + ",\n"@ + "  provider: "@
        + provider_text_of(q.provider) + ",\n"@ + "  region: "@ + q.region@ + ",\n"@
        + "  template_path: "@ + debug_text_of(q.template_path@) + "\n"@
}

fn region_text(o: &Option<String>) -> (r: String)
    ensures
        r@ == match *o {
            Some(g) => g@,
            None => "[Random]"@,
        },
{
    match o {
        Some(g) => g.clone(),
        None => String::from_str("[Random]"),
    }
}

fn script_text(o: &Option<String>) -> (r: String)
    ensures
        r@ == match *o {
            Some(s) => "Some("@ + debug_text_of(s@) + ")"@,
            None => "None"@,
        },
{
    match o {
        Some(s) => String::from_str("Some(").concat(debug_text(s.as_str()).as_str()).concat(")"),
        None => String::from_str("None"),
    }
}

fn rules_text(o: &Option<Vec<InboundRule>>) -> (r: String)
    ensures
        r@ == request_rules_text_of(*o),
{
    match o {
        Some(v) => rule_list_text(v),
        None => String::from_str("[InboundRule { protocol: ").concat(debug_text("tcp").as_str()).concat(
            ", port_number: 22 }]",
        ),
    }
}

fn key_text(o: &Option<String>) -> (r: String)
    ensures
        r@ == debug_text_of(
            match *o {
                Some(k) => k@,
                None => "[Default]"@,
            },
        ),
{
    match o {
        Some(k) => debug_text(k.as_str()),
        None => debug_text("[Default]"),
    }
}

impl RunDeployParams {
    /// The parameters as shown to the operator before acting.
    pub fn describe(&self) -> (r: String)
        ensures
            r@ == deploy_summary_of(*self),
    {
        let instance = instance_text(&self.instance_type, &self.provider);
        let region = region_text(&self.region);
        let script = script_text(&self.script_path);
        let template = debug_text(self.template_path.as_str());
        let rules = rules_text(&self.inbound_rules);
        let key = key_text(&self.ssh_public_key_path);
        String::from_str("Deploy params \n").concat("  debug: ").concat(bool_text(self.debug)).concat(
            ",\n",
        ).concat("  instance_type: ").concat(instance.as_str()).concat(",\n").concat(
            "  provider: ",
        ).concat(provider_text(&self.provider)).concat(",\n").concat("  region: ").concat(
            region.as_str(),
        ).concat(",\n").concat("  script_path: ").concat(script.as_str()).concat(",\n").concat(
            "  template_path: ",
        ).concat(template.as_str()).concat("\n").concat("  inbound_rules: ").concat(
            rules.as_str(),
        ).concat("\n").concat("  ssh_public_key_path: ").concat(key.as_str()).concat("\n")
    }
}

impl RunUndeployParams {
    /// The parameters as shown to the operator before acting.
    pub fn describe(&self) -> (r: String)
        ensures
            r@ == undeploy_summary_of(*self),
    {
        let instance = instance_text(&self.instance_type, &self.provider);
        let template = debug_text(self.template_path.as_str());
        String::from_str("Undeploy params \n").concat("  debug: ").concat(bool_text(self.debug)).concat(
            ",\n",
        ).concat("  instance_type: ").concat(instance.as_str()).concat(",\n").concat(
            "  provider: ",
        ).concat(provider_text(&self.provider)).concat(",\n").concat("  region: ").concat(
            self.region.as_str(),
        ).concat(",\n").concat("  template_path: ").concat(template.as_str()).concat("\n")
    }
}

} // verus!
