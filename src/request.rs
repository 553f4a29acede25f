use vstd::prelude::*;
use crate::lifecycle::{wf, Deployment, Lifecycle, Phase};
use crate::provider::{
    default_instance_type_of, provider_name_of, region_list, resolve_default_instance_type,
    resolve_random_region, Provider,
};
use crate::rules::{
    json_string_of, resolve_default_inbound_rule, rule_json_of, rules_json, rules_json_of,
    InboundRule,
};
use crate::text::{join_path, path_join};
use crate::vars::VarMap;
use crate::workspace::{workspace_dir, workspace_dir_of};

verus! {

/// What a deployment was asked for; unset options take their defaults when
/// the variables are resolved.
#[derive(Debug)]
pub struct RunDeployParams {
    pub debug: bool,
    pub instance_type: Option<String>,
    pub provider: Provider,
    pub region: Option<String>,
    pub script_path: Option<String>,
    pub template_path: String,
    pub inbound_rules: Option<Vec<InboundRule>>,
    pub ssh_public_key_path: Option<String>,
}

/// What a teardown of an existing deployment was asked for.
#[derive(Debug)]
pub struct RunUndeployParams {
    pub debug: bool,
    pub instance_type: Option<String>,
    pub provider: Provider,
    pub region: String,
    pub template_path: String,
}

/// The view of an optional text, or `d` when it is absent.
pub open spec fn text_or(o: Option<String>, d: Seq<char>) -> Seq<char> {
    match o {
        Some(s) => s@,
        None => d,
    }
}

/// The inbound-rule variable for the default rule, TCP on port 22.
pub open spec fn default_rules_json() -> Seq<char> {
    "["@ + rule_json_of(json_string_of("tcp"@), 22) + "]"@
}

/// The inbound-rule variable of a request.
pub open spec fn request_rules_json(rules: Option<Vec<InboundRule>>) -> Seq<char> {
    match rules {
        Some(v) => rules_json_of(v@),
        None => default_rules_json(),
    }
}

/// `vars` are the variables of a deployment request: the instance class,
/// the region (one of the provider's at random when none was given), the
/// startup script, the inbound rules as JSON and the public key, in that
/// order.
pub open spec fn deploy_vars(q: RunDeployParams, vars: Seq<(Seq<char>, Seq<char>)>) -> bool {
    &&& vars.len() == 5
    &&& vars[0] == ("instance_type"@, text_or(q.instance_type, default_instance_type_of(q.provider)))
    &&& vars[1].0 == "region"@
    &&& (q.region matches Some(g) ==> vars[1].1 == g@)
    &&& (q.region is None ==> region_list(q.provider).contains(vars[1].1))
    &&& vars[2] == ("script_path"@, text_or(q.script_path, Seq::empty()))
    &&& vars[3] == ("inbound_rules"@, request_rules_json(q.inbound_rules))
    &&& vars[4] == ("ssh_public_key_path"@, text_or(q.ssh_public_key_path, "none"@))
}

/// The variables of a teardown request: the instance class and the region.
pub open spec fn undeploy_vars_of(q: RunUndeployParams) -> Seq<(Seq<char>, Seq<char>)> {
    seq![
        ("instance_type"@, text_or(q.instance_type, default_instance_type_of(q.provider))),
        ("region"@, q.region@),
    ]
}

fn text_or_default(o: &Option<String>, d: String) -> (r: String)
    ensures
        r@ == text_or(*o, d@),
{
    match o {
        Some(s) => s.clone(),
        None => d,
    }
}

impl RunDeployParams {
    /// Resolves the variables handed to the provisioning engine.
    pub fn to_atar_map(&self) -> (r: VarMap)
        ensures
            deploy_vars(*self, r@),
    {
        let mut map = VarMap::new();
        let default_instance_type = resolve_default_instance_type(&self.provider);
        map.push(
            "instance_type".to_string(),
            text_or_default(&self.instance_type, default_instance_type),
        );
        let region = match &self.region {
            Some(g) => g.clone(),
            None => resolve_random_region(&self.provider),
        };
        map.push("region".to_string(), region);
        map.push("script_path".to_string(), text_or_default(&self.script_path, String::new()));
        let rules_text = match &self.inbound_rules {
            Some(v) => rules_json(v),
            None => {
                let d = resolve_default_inbound_rule();
                let t = rules_json(&d);
                assert(d@.drop_last().len() == 0);
                t
            },
        };
        map.push("inbound_rules".to_string(), rules_text);
        map.push(
            "ssh_public_key_path".to_string(),
            text_or_default(&self.ssh_public_key_path, "none".to_string()),
        );
        map
    }
}

impl RunUndeployParams {
    /// Resolves the variables handed to the provisioning engine.
    pub fn to_atar_map(&self) -> (r: VarMap)
        ensures
            r@ == undeploy_vars_of(*self),
    {
        let mut map = VarMap::new();
        let default_instance_type = resolve_default_instance_type(&self.provider);
        map.push(
            "instance_type".to_string(),
            text_or_default(&self.instance_type, default_instance_type),
        );
        map.push("region".to_string(), self.region.clone());
        assert(map@ =~= undeploy_vars_of(*self));
        map
    }
}

/// The directory holding a provider's template, under the project directory.
pub open spec fn template_dir_of(project_dir: Seq<char>, p: Provider) -> Seq<char> {
    path_join(path_join(project_dir, "templates"@), provider_name_of(p))
}

/// The template file of a provider, under the project directory.
pub open spec fn template_path_of(project_dir: Seq<char>, p: Provider) -> Seq<char> {
    path_join(template_dir_of(project_dir, p), "main.tf"@)
}

/// Computes the directory holding a provider's template.
pub fn template_dir(project_dir: &str, provider: &Provider) -> (r: String)
    ensures
        r@ == template_dir_of(project_dir@, *provider),
{
    let templates = join_path(project_dir, "templates");
    join_path(templates.as_str(), provider.name())
}

/// Computes the template file of a provider.
pub fn template_path(project_dir: &str, provider: &Provider) -> (r: String)
    ensures
        r@ == template_path_of(project_dir@, *provider),
{
    let dir = template_dir(project_dir, provider);
    join_path(dir.as_str(), "main.tf")
}

/// Why a run could not be set up.
#[derive(Clone, Copy, Debug, PartialEq, Eq, Structural)]
pub enum ConfigError {
    /// The project directory, where the templates live, is not known.
    ProjectDirUnset,
}

impl ConfigError {
    /// The message shown to the operator.
    pub fn message(&self) -> (r: &'static str)
        ensures
            r@ == "CARGO_MANIFEST_DIR is not set"@,
    {
        "CARGO_MANIFEST_DIR is not set"
    }
}

/// What the operator asked for.
#[derive(Debug)]
pub enum Command {
    /// Deploy an ephemeral machine and tear it down when the run ends.
    Deploy {
        debug: bool,
        instance_type: Option<String>,
        provider: Provider,
        region: Option<String>,
        script_path: Option<String>,
        inbound_rules: Option<Vec<InboundRule>>,
        ssh_public_key_path: Option<String>,
    },
    /// Tear down an existing deployment.
    Undeploy { debug: bool, instance_type: Option<String>, provider: Provider, region: String },
}

/// A resolved request.
#[derive(Debug)]
pub enum Request {
    Deploy(RunDeployParams),
    Undeploy(RunUndeployParams),
}

/// A request together with the controller that carries it out.
pub struct Session {
    pub request: Request,
    pub lifecycle: Lifecycle,
}

/// Resolves a command into its request and the controller that carries it
/// out. A deployment starts idle and clears the engine's workspace first; a
/// teardown starts with the teardown armed.
pub fn run(command: Command, project_dir: Option<String>, temp_root: &str) -> (r: Result<
    Session,
    ConfigError,
>)
    ensures
        project_dir is None <==> r is Err,
        r matches Ok(sess) ==> {
            let l = sess.lifecycle@;
            let m = project_dir->Some_0@;
            &&& wf(l)
            &&& l.destroys == 0
            &&& match (command, sess.request) {
                (
                    Command::Deploy {
                        debug,
                        instance_type,
                        provider,
                        region,
                        script_path,
                        inbound_rules,
                        ssh_public_key_path,
                    },
                    Request::Deploy(q),
                ) => {
                    &&& q == RunDeployParams {
                        debug,
                        instance_type,
                        provider,
                        region,
                        script_path,
                        template_path: q.template_path,
                        inbound_rules,
                        ssh_public_key_path,
                    }
                    &&& q.template_path@ == template_path_of(m, provider)
                    &&& l.phase == Phase::Idle
                    &&& l.deployment.template_path == q.template_path@
                    &&& l.deployment.workspace_dir == workspace_dir_of(
                        temp_root@,
                        template_dir_of(m, provider),
                    )
                    &&& deploy_vars(q, l.deployment.vars)
                    &&& l.deployment.verbose == debug
                },
                (
                    Command::Undeploy { debug, instance_type, provider, region },
                    Request::Undeploy(q),
                ) => {
                    &&& q == RunUndeployParams {
                        debug,
                        instance_type,
                        provider,
                        region,
                        template_path: q.template_path,
                    }
                    &&& q.template_path@ == template_path_of(m, provider)
                    &&& l.phase == Phase::Deployed
                    &&& l.teardown == Some(l.deployment)
                    &&& l.deployment.template_path == q.template_path@
                    &&& l.deployment.workspace_dir == workspace_dir_of(
                        temp_root@,
                        template_dir_of(m, provider),
                    )
                    &&& l.deployment.vars == undeploy_vars_of(q)
                    &&& l.deployment.verbose == debug
                },
                _ => false,
            }
        },
{
    let project_dir = match project_dir {
        Some(d) => d,
        None => {
            return Err(ConfigError::ProjectDirUnset);
        },
    };
    match command {
        Command::Deploy {
            debug,
            instance_type,
            provider,
            region,
            script_path,
            inbound_rules,
            ssh_public_key_path,
        } => {
            let dir = template_dir(project_dir.as_str(), &provider);
            let template_path = template_path(project_dir.as_str(), &provider);
            let q = RunDeployParams {
                debug,
                instance_type,
                provider,
                region,
                script_path,
                template_path,
                inbound_rules,
                ssh_public_key_path,
            };
            let deployment = Deployment {
                template_path: q.template_path.clone(),
                workspace_dir: workspace_dir(temp_root, dir.as_str()),
                vars: q.to_atar_map(),
                verbose: debug,
            };
            let lifecycle = Lifecycle::for_deploy(deployment);
            Ok(Session { request: Request::Deploy(q), lifecycle })
        },
        Command::Undeploy { debug, instance_type, provider, region } => {
            let dir = template_dir(project_dir.as_str(), &provider);
            let template_path = template_path(project_dir.as_str(), &provider);
            let q = RunUndeployParams { debug, instance_type, provider, region, template_path };
            let deployment = Deployment {
                template_path: q.template_path.clone(),
                workspace_dir: workspace_dir(temp_root, dir.as_str()),
                vars: q.to_atar_map(),
                verbose: debug,
            };
            let lifecycle = Lifecycle::for_undeploy(deployment);
            Ok(Session { request: Request::Undeploy(q), lifecycle })
        },
    }
}

} // verus!
