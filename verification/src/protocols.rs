//! The protocol types that the control gateway exchanges about services, held as plain
//! values, and the text that each of them displays as.
use vstd::prelude::*;
use vstd::string::StringExecFns;

verus! {

/// An application and the environment it runs in.
#[derive(Clone, Debug, PartialEq, Eq)]
pub struct ApplicationEnvironment {
    pub application: String,
    pub environment: String,
}

impl ApplicationEnvironment {
    /// The displayed text: `application.environment`.
    pub open spec fn spec_to_string(&self) -> Seq<char> {
        self.application@ + seq!['.'] + self.environment@
    }

    /// The displayed text: `application.environment`.
    pub fn to_string(&self) -> (s: String)
        ensures
            s@ == self.spec_to_string(),
    {
        let mut s = String::from_str(self.application.as_str());
        s.append(".");
        s.append(self.environment.as_str());
        proof {
            reveal_strlit(".");
        }
        s
    }
}

/// A package identifier: origin and name, and optionally a version and a release.
#[derive(Clone, Debug, PartialEq, Eq)]
pub struct PackageIdent {
    pub origin: String,
    pub name: String,
    pub version: Option<String>,
    pub release: Option<String>,
}

/// The characters of an optional string, when it is there.
pub open spec fn opt_chars(s: Option<String>) -> Option<Seq<char>> {
    match s {
        Some(s) => Some(s@),
        None => None,
    }
}

impl PackageIdent {
    /// The displayed text: `origin/name/version/release` when both the version and the
    /// release are set, `origin/name/version` when only the version is, `origin/name`
    /// otherwise.
    pub open spec fn spec_to_string(&self) -> Seq<char> {
        let base = self.origin@ + seq!['/'] + self.name@;
        match (self.version, self.release) {
            (Some(v), Some(r)) => base + seq!['/'] + v@ + seq!['/'] + r@,
            (Some(v), None) => base + seq!['/'] + v@,
            _ => base,
        }
    }

    /// The displayed text, as `spec_to_string` describes it.
    pub fn to_string(&self) -> (s: String)
        ensures
            s@ == self.spec_to_string(),
    {
        proof {
            reveal_strlit("/");
        }
        let mut s = String::from_str(self.origin.as_str());
        s.append("/");
        s.append(self.name.as_str());
        match &self.version {
            Some(version) => {
                s.append("/");
                s.append(version.as_str());
                if let Some(release) = &self.release {
                    s.append("/");
                    s.append(release.as_str());
                }
            },
            None => {},
        }
        s
    }

    /// The origin.
    pub fn origin(&self) -> (origin: &str)
        ensures
            origin@ == self.origin@,
    {
        self.origin.as_str()
    }

    /// The name.
    pub fn name(&self) -> (name: &str)
        ensures
            name@ == self.name@,
    {
        self.name.as_str()
    }

    /// The version, when it is set.
    pub fn version(&self) -> (version: Option<&str>)
        ensures
            match version {
                Some(v) => opt_chars(self.version) == Some(v@),
                None => self.version is None,
            },
    {
        match &self.version {
            Some(v) => Some(v.as_str()),
            None => None,
        }
    }

    /// The release, when it is set.
    pub fn release(&self) -> (release: Option<&str>)
        ensures
            match release {
                Some(r) => opt_chars(self.release) == Some(r@),
                None => self.release is None,
            },
    {
        match &self.release {
            Some(r) => Some(r.as_str()),
            None => None,
        }
    }
}

/// Whether a supervised process is running.
#[derive(Copy, Clone, Debug, PartialEq, Eq, Structural)]
pub enum ProcessState {
    Down,
    Up,
}

impl ProcessState {
    /// The displayed text: `down` or `up`.
    pub open spec fn spec_to_string(&self) -> Seq<char> {
        match self {
            ProcessState::Down => seq!['d', 'o', 'w', 'n'],
            ProcessState::Up => seq!['u', 'p'],
        }
    }

    /// The displayed text: `down` or `up`.
    pub fn to_string(&self) -> (s: String)
        ensures
            s@ == self.spec_to_string(),
    {
        proof {
            reveal_strlit("down");
            reveal_strlit("up");
        }
        let state = match *self {
            ProcessState::Down => "down",
            ProcessState::Up => "up",
        };
        String::from_str(state)
    }
}

/// A service group: service and group, optionally scoped by an application environment
/// and an organization.
#[derive(Clone, Debug, PartialEq, Eq)]
pub struct ServiceGroup {
    pub service: String,
    pub group: String,
    pub application_environment: Option<ApplicationEnvironment>,
    pub organization: Option<String>,
}

impl ServiceGroup {
    /// The displayed text: `service.group`, after `application.environment#` when an
    /// application environment is set, and before `@organization` when an organization is.
    pub open spec fn spec_to_string(&self) -> Seq<char> {
        let core = self.service@ + seq!['.'] + self.group@;
        let scoped = match self.application_environment {
            Some(app_env) => app_env.spec_to_string() + seq!['#'] + core,
            None => core,
        };
        match self.organization {
            Some(org) => scoped + seq!['@'] + org@,
            None => scoped,
        }
    }

    /// The displayed text, as `spec_to_string` describes it.
    pub fn to_string(&self) -> (s: String)
        ensures
            s@ == self.spec_to_string(),
    {
        proof {
            reveal_strlit(".");
            reveal_strlit("#");
            reveal_strlit("@");
        }
        let mut value = match &self.application_environment {
            Some(app_env) => {
                let mut prefix = app_env.to_string();
                prefix.append("#");
                prefix
            },
            None => String::new(),
        };
        value.append(self.service.as_str());
        value.append(".");
        value.append(self.group.as_str());
        if let Some(organization) = &self.organization {
            value.append("@");
            value.append(organization.as_str());
        }
        value
    }
}

/// The text of an application environment is the application, a '.', then the environment,
/// each in full.
pub proof fn lemma_application_environment_text(ae: ApplicationEnvironment)
    ensures
        ({
            let t = ae.spec_to_string();
            let (a, e) = (ae.application@, ae.environment@);
            &&& t.len() == a.len() as int + 1 + e.len() as int
            &&& t.subrange(0, a.len() as int) == a
            &&& t[a.len() as int] == '.'
            &&& t.subrange(a.len() as int + 1, t.len() as int) == e
        }),
{
    let t = ae.spec_to_string();
    let (a, e) = (ae.application@, ae.environment@);
    assert(t.subrange(0, a.len() as int) =~= a);
    assert(t.subrange(a.len() as int + 1, t.len() as int) =~= e);
}

/// With a version and a release, the text of a package identifier is the origin, the name,
/// the version and the release, each in full, separated by '/'.
pub proof fn lemma_package_ident_full_text(p: PackageIdent)
    requires
        p.version is Some,
        p.release is Some,
    ensures
        ({
            let t = p.spec_to_string();
            let (o, n, v, r) = (p.origin@, p.name@, p.version.unwrap()@, p.release.unwrap()@);
            let (i1, i2, i3) = (o.len() as int, o.len() as int + 1 + n.len() as int, o.len() as int + n.len() as int + v.len() as int + 2);
            &&& t.len() == o.len() + n.len() + v.len() + r.len() + 3
            &&& t.subrange(0, i1) == o
            &&& t[i1] == '/'
            &&& t.subrange(i1 + 1, i2) == n
            &&& t[i2] == '/'
            &&& t.subrange(i2 + 1, i3) == v
            &&& t[i3] == '/'
            &&& t.subrange(i3 + 1, t.len() as int) == r
        }),
{
    let t = p.spec_to_string();
    let (o, n, v, r) = (p.origin@, p.name@, p.version.unwrap()@, p.release.unwrap()@);
    let (i1, i2, i3) = (o.len() as int, o.len() as int + 1 + n.len() as int, o.len() as int + n.len() as int + v.len() as int + 2);
    assert(t =~= o + seq!['/'] + n + seq!['/'] + v + seq!['/'] + r);
    assert(t.subrange(0, i1) =~= o);
    assert(t.subrange(i1 + 1, i2) =~= n);
    assert(t.subrange(i2 + 1, i3) =~= v);
    assert(t.subrange(i3 + 1, t.len() as int) =~= r);
}

/// With a version and no release, the text of a package identifier is the origin, the name
/// and the version, each in full, separated by '/'.
pub proof fn lemma_package_ident_versioned_text(p: PackageIdent)
    requires
        p.version is Some,
        p.release is None,
    ensures
        ({
            let t = p.spec_to_string();
            let (o, n, v) = (p.origin@, p.name@, p.version.unwrap()@);
            let (i1, i2) = (o.len() as int, o.len() as int + 1 + n.len() as int);
            &&& t.len() == o.len() as int + n.len() as int + v.len() as int + 2
            &&& t.subrange(0, i1) == o
            &&& t[i1] == '/'
            &&& t.subrange(i1 + 1, i2) == n
            &&& t[i2] == '/'
            &&& t.subrange(i2 + 1, t.len() as int) == v
        }),
{
    let t = p.spec_to_string();
    let (o, n, v) = (p.origin@, p.name@, p.version.unwrap()@);
    let (i1, i2) = (o.len() as int, o.len() as int + 1 + n.len() as int);
    assert(t.subrange(0, i1) =~= o);
    assert(t.subrange(i1 + 1, i2) =~= n);
    assert(t.subrange(i2 + 1, t.len() as int) =~= v);
}

/// Without a version, the text of a package identifier is the origin and the name, in full,
/// separated by '/', whether a release is set or not.
pub proof fn lemma_package_ident_bare_text(p: PackageIdent)
    requires
        p.version is None,
    ensures
        ({
            let t = p.spec_to_string();
            let (o, n) = (p.origin@, p.name@);
            &&& t.len() == o.len() + n.len() + 1
            &&& t.subrange(0, o.len() as int) == o
            &&& t[o.len() as int] == '/'
            &&& t.subrange(o.len() as int + 1, t.len() as int) == n
        }),
{
    let t = p.spec_to_string();
    let (o, n) = (p.origin@, p.name@);
    assert(t.subrange(0, o.len() as int) =~= o);
    assert(t.subrange(o.len() as int + 1, t.len() as int) =~= n);
}

/// The text of a service group: the application environment's text and a '#' when one is
/// set, then the service, a '.', the group, and a '@' and the organization when one is set,
/// each part in full.
pub proof fn lemma_service_group_text(sg: ServiceGroup)
    ensures
        ({
            let t = sg.spec_to_string();
            let (sv, g) = (sg.service@, sg.group@);
            let pre: int = match sg.application_environment {
                Some(ae) => ae.spec_to_string().len() as int + 1,
                None => 0,
            };
            let dot = pre + sv.len() as int;
            let after = dot + 1 + g.len() as int;
            &&& t.subrange(pre, dot) == sv
            &&& t[dot] == '.'
            &&& t.subrange(dot + 1, after) == g
            &&& sg.application_environment matches Some(ae) ==> {
                &&& t.subrange(0, pre - 1) == ae.spec_to_string()
                &&& t[pre - 1] == '#'
            }
            &&& match sg.organization {
                Some(org) => {
                    &&& t.len() == after + 1 + org@.len() as int
                    &&& t[after] == '@'
                    &&& t.subrange(after + 1, t.len() as int) == org@
                },
                None => t.len() == after,
            }
        }),
{
    let t = sg.spec_to_string();
    let (sv, g) = (sg.service@, sg.group@);
    let prefix: Seq<char> = match sg.application_environment {
        Some(ae) => ae.spec_to_string() + seq!['#'],
        None => Seq::empty(),
    };
    let suffix: Seq<char> = match sg.organization {
        Some(org) => seq!['@'] + org@,
        None => Seq::empty(),
    };
    assert(t =~= prefix + sv + seq!['.'] + g + suffix);
    let pre = prefix.len() as int;
    let dot = pre + sv.len() as int;
    let after = dot + 1 + g.len() as int;
    assert(t.subrange(pre, dot) =~= sv);
    assert(t.subrange(dot + 1, after) =~= g);
    if let Some(ae) = sg.application_environment {
        assert(t.subrange(0, pre - 1) =~= ae.spec_to_string());
    }
    if let Some(org) = sg.organization {
        assert(t.subrange(after + 1, t.len() as int) =~= org@);
    }
}

} // verus!
