use std::collections::HashMap;
use std::collections::HashSet;
use vstd::prelude::*;
use vstd::string::*;

verus! {

/// The one way in which resolving a deployment's hostnames can fail.
#[derive(Debug, Clone, Copy, PartialEq, Eq, Structural)]
pub enum DomainError {
    /// No root domain was configured (absent, or empty), so no hostname can be
    /// formed.
    ConfigurationMissing,
}

/// The hostname `"{label}.{root}"`.
pub open spec fn hostname(label: Seq<char>, root: Seq<char>) -> Seq<char> {
    label + seq!['.'] + root
}

/// The views of a sequence of strings.
pub open spec fn views_of(v: Seq<String>) -> Seq<Seq<char>> {
    v.map_values(|s: String| s@)
}

/// A usable root domain: present and non-empty.
pub open spec fn root_configured(root: Option<Seq<char>>) -> bool {
    root is Some && root->Some_0.len() > 0
}

/// `"{label}.{root}"` as a new string.
fn join_host(label: &String, root: &str) -> (r: String)
    ensures
        r@ == hostname(label@, root@),
{
    let mut h = label.clone();
    h.append(".");
    h.append(root);
    proof {
        reveal_strlit(".");
    }
    h
}

/// One deployed, immutable version of a serverless function.
///
/// `domains` holds the custom hostnames attached to the deployment; whoever
/// fills the record keeps them distinct from one another and from the
/// hostnames derived from `id` and `function_name`.
#[derive(Debug)]
pub struct Deployment {
    pub id: String,
    pub function_id: String,
    pub function_name: String,
    pub domains: Vec<String>,
    pub assets: HashSet<String>,
    pub environment_variables: HashMap<String, String>,
    /// Memory limit, in megabytes.
    pub memory: usize,
    /// Execution timeout, in milliseconds.
    pub timeout: usize,
    /// Cold-start timeout, in milliseconds.
    pub startup_timeout: usize,
    pub is_production: bool,
    pub cron: Option<String>,
}

impl Deployment {
    /// The hostnames under which this deployment accepts traffic, for the root
    /// domain `root`: its id-based preview hostname, then, for a production
    /// deployment only, its function-name hostname and its custom domains.
    pub open spec fn routable_domains(&self, root: Seq<char>) -> Seq<Seq<char>> {
        if self.is_production {
            seq![hostname(self.id@, root), hostname(self.function_name@, root)]
                + views_of(self.domains@)
        } else {
            seq![hostname(self.id@, root)]
        }
    }

    /// What resolving the hostnames yields for a root domain that may be
    /// missing.
    pub open spec fn domains_outcome(&self, root: Option<Seq<char>>) -> Result<
        Seq<Seq<char>>,
        DomainError,
    > {
        if root_configured(root) {
            Ok(self.routable_domains(root->Some_0))
        } else {
            Err(DomainError::ConfigurationMissing)
        }
    }

    /// The hostnames under which this deployment must accept traffic, in
    /// order, under the configured root domain. Fails with
    /// `ConfigurationMissing` when the root domain is absent or empty. Custom
    /// domains are not deduplicated against the derived hostnames.
    pub fn get_domains(&self, root_domain: Option<&str>) -> (r: Result<Vec<String>, DomainError>)
        ensures
            outcome_views(r) == self.domains_outcome(opt_view(root_domain)),
            r is Ok <==> root_configured(opt_view(root_domain)),
            r is Ok && !self.is_production ==> ({
                let d = views_of(r->Ok_0@);
                &&& d.len() == 1
                &&& d[0] == hostname(self.id@, root_domain->Some_0@)
            }),
            r is Ok && self.is_production ==> ({
                let d = views_of(r->Ok_0@);
                &&& d.len() == 2 + self.domains@.len()
                &&& d[0] == hostname(self.id@, root_domain->Some_0@)
                &&& d[1] == hostname(self.function_name@, root_domain->Some_0@)
                &&& d.subrange(2, d.len() as int) == views_of(self.domains@)
            }),
    {
        let root = match root_domain {
            Some(root) => root,
            None => return Err(DomainError::ConfigurationMissing),
        };
        if root.is_empty() {
            return Err(DomainError::ConfigurationMissing);
        }
        let mut domains: Vec<String> = Vec::new();
        domains.push(join_host(&self.id, root));
        if self.is_production {
            domains.push(join_host(&self.function_name, root));
            let mut i: usize = 0;
            while i < self.domains.len()
                invariant
                    i <= self.domains@.len(),
                    views_of(domains@) == seq![
                        hostname(self.id@, root@),
                        hostname(self.function_name@, root@),
                    ] + views_of(self.domains@.subrange(0, i as int)),
                decreases self.domains@.len() - i,
            {
                let ghost before = domains@;
                domains.push(self.domains[i].clone());
                proof {
                    assert(self.domains@.subrange(0, i + 1) == self.domains@.subrange(
                        0,
                        i as int,
                    ).push(self.domains@[i as int]));
                    assert(views_of(before.push(self.domains@[i as int])) == views_of(before).push(
                        self.domains@[i as int]@,
                    ));
                    assert(views_of(self.domains@.subrange(0, i + 1)) == views_of(
                        self.domains@.subrange(0, i as int),
                    ).push(self.domains@[i as int]@));
                }
                i = i + 1;
            }
            proof {
                assert(self.domains@.subrange(0, self.domains@.len() as int) == self.domains@);
            }
        }
        assert(views_of(domains@) == self.routable_domains(root@));
        Ok(domains)
    }

    /// A deployment may run its scheduled invocation when it is the production
    /// version and has a cron expression.
    pub open spec fn cron_eligible(&self) -> bool {
        self.is_production && self.cron is Some
    }

    /// Whether the scheduler may run this deployment's cron invocation.
    pub fn should_run_cron(&self) -> (r: bool)
        ensures
            r == self.cron_eligible(),
    {
        self.is_production && self.cron.is_some()
    }
}

/// The views of the hostnames in a resolution's result.
pub open spec fn outcome_views(r: Result<Vec<String>, DomainError>) -> Result<
    Seq<Seq<char>>,
    DomainError,
> {
    match r {
        Ok(v) => Ok(views_of(v@)),
        Err(e) => Err(e),
    }
}

/// Both queries are idempotent: asked twice of an unchanged record, with an
/// unchanged root domain, each gives the same answer both times.
pub proof fn lemma_queries_idempotent(
    d: Deployment,
    root: Option<Seq<char>>,
    first: Result<Vec<String>, DomainError>,
    second: Result<Vec<String>, DomainError>,
    cron_first: bool,
    cron_second: bool,
)
    requires
        outcome_views(first) == d.domains_outcome(root),
        outcome_views(second) == d.domains_outcome(root),
        cron_first == d.cron_eligible(),
        cron_second == d.cron_eligible(),
    ensures
        outcome_views(first) == outcome_views(second),
        cron_first == cron_second,
{
}

/// The view of an optional string slice.
pub open spec fn opt_view(o: Option<&str>) -> Option<Seq<char>> {
    match o {
        Some(s) => Some(s@),
        None => None,
    }
}

} // verus!
