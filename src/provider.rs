use rand::seq::SliceRandom;
use vstd::prelude::*;

verus! {

/// The cloud providers that templates exist for.
#[derive(Clone, Copy, Debug, PartialEq, Eq, Structural)]
pub enum Provider {
    AWS,
    GCP,
    Hetzner,
}

/// The regions (AWS regions, GCP regions, Hetzner locations) a provider offers.
pub open spec fn region_list(p: Provider) -> Seq<Seq<char>> {
    match p {
        Provider::AWS => seq![
            "us-east-1"@, "us-east-2"@, "us-west-1"@, "us-west-2"@, "ap-south-1"@,
            "ap-northeast-3"@, "ap-northeast-2"@, "ap-southeast-1"@, "ap-southeast-2"@,
            "ap-northeast-1"@, "ca-central-1"@, "eu-central-1"@, "eu-west-1"@, "eu-west-2"@,
            "eu-west-3"@, "eu-north-1"@, "sa-east-1"@,
        ],
        Provider::GCP => seq![
            "us-central1"@, "us-east1"@, "us-east4"@, "us-west1"@, "us-west2"@, "us-west3"@,
            "us-west4"@, "northamerica-northeast1"@, "southamerica-east1"@, "europe-west1"@,
            "europe-west2"@, "europe-west3"@, "europe-west4"@, "europe-west6"@,
            "europe-west8"@, "europe-west9"@, "europe-north1"@, "europe-southwest1"@,
            "asia-east1"@, "asia-east2"@, "asia-northeast1"@, "asia-northeast2"@,
            "asia-northeast3"@, "asia-south1"@, "asia-south2"@, "asia-southeast1"@,
            "asia-southeast2"@, "australia-southeast1"@, "australia-southeast2"@,
            "me-central1"@, "me-west1"@,
        ],
        Provider::Hetzner => seq!["fsn1"@, "nbg1"@, "hel1"@, "ash"@, "hil"@],
    }
}

/// The instance class used when none is given.
pub open spec fn default_instance_type_of(p: Provider) -> Seq<char> {
    match p {
        Provider::AWS => "t3.micro"@,
        Provider::GCP => "f1-micro"@,
        Provider::Hetzner => "cx11"@,
    }
}

/// The directory name of the provider's template.
pub open spec fn provider_name_of(p: Provider) -> Seq<char> {
    match p {
        Provider::AWS => "aws"@,
        Provider::GCP => "gcp"@,
        Provider::Hetzner => "hetzner"@,
    }
}

impl Provider {
    /// The name under which the provider's template is stored.
    pub fn name(&self) -> (r: &'static str)
        ensures
            r@ == provider_name_of(*self),
    {
        match self {
            Provider::AWS => "aws",
            Provider::GCP => "gcp",
            Provider::Hetzner => "hetzner",
        }
    }

    /// The provider's fixed list of regions.
    pub fn regions(&self) -> (r: Vec<&'static str>)
        ensures
            r@.map_values(|s: &str| s@) == region_list(*self),
    {
        let r: Vec<&'static str> = match self {
            Provider::AWS => vec![
                "us-east-1", "us-east-2", "us-west-1", "us-west-2", "ap-south-1",
                "ap-northeast-3", "ap-northeast-2", "ap-southeast-1", "ap-southeast-2",
                "ap-northeast-1", "ca-central-1", "eu-central-1", "eu-west-1", "eu-west-2",
                "eu-west-3", "eu-north-1", "sa-east-1",
            ],
            Provider::GCP => vec![
                "us-central1", "us-east1", "us-east4", "us-west1", "us-west2", "us-west3",
                "us-west4", "northamerica-northeast1", "southamerica-east1", "europe-west1",
                "europe-west2", "europe-west3", "europe-west4", "europe-west6",
                "europe-west8", "europe-west9", "europe-north1", "europe-southwest1",
                "asia-east1", "asia-east2", "asia-northeast1", "asia-northeast2",
                "asia-northeast3", "asia-south1", "asia-south2", "asia-southeast1",
                "asia-southeast2", "australia-southeast1", "australia-southeast2",
                "me-central1", "me-west1",
            ],
            Provider::Hetzner => vec!["fsn1", "nbg1", "hel1", "ash", "hil"],
        };
        assert(r@.map_values(|s: &str| s@) =~= region_list(*self));
        r
    }
}

/// Relies on rand's `SliceRandom::choose` with the thread-local generator:
/// `None` for an empty slice, otherwise one of its items.
#[verifier::external_body]
fn choose_one(items: &Vec<&'static str>) -> (r: Option<&'static str>)
    ensures
        r is None <==> items@.len() == 0,
        r matches Some(x) ==> items@.contains(x),
{
    items.choose(&mut rand::thread_rng()).copied()
}

/// Picks one of the provider's regions at random.
pub fn resolve_random_region(provider: &Provider) -> (r: String)
    ensures
        region_list(*provider).contains(r@),
{
    let regions = provider.regions();
    let ghost views = regions@.map_values(|s: &str| s@);
    assert(views.len() > 0) by {
        assert(region_list(*provider).len() > 0);
    }
    match choose_one(&regions) {
        Some(x) => {
            let ghost i = regions@.index_of(x);
            assert(views[i] == x@);
            x.to_string()
        },
        None => {
            // The lists are fixed and not empty.
            assert(false);
            String::new()
        },
    }
}

/// The instance class used for a provider when none is given.
pub fn resolve_default_instance_type(provider: &Provider) -> (r: String)
    ensures
        r@ == default_instance_type_of(*provider),
{
    match provider {
        Provider::AWS => "t3.micro".to_string(),
        Provider::GCP => "f1-micro".to_string(),
        Provider::Hetzner => "cx11".to_string(),
    }
}

} // verus!
