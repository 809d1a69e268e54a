//! Model preparation rules: manifest entries, licence acknowledgement, artifact paths and
//! digests.
use vstd::prelude::*;
use crate::config::{DeploymentConfig, ModelAcknowledgement};
use crate::unicode::{chars_of, string_of, text_eq};
use crate::artifacts::{digest_matches, hex_lower, sha256_digest, transform_bytes, transformed};

verus! {

#[derive(Clone, Debug, PartialEq, Eq)]
pub enum ModelError {
    Read(String),
    Parse(String),
    UnknownModel(String),
    MissingAcknowledgement { model: String, revision: String, license: String },
    LicenseDenied { model: String, profile: String },
    MissingArtifact(String),
    Offline(String),
    UnsafePath(String),
    UnsupportedTransform(String),
    Acquire(String),
    HashMismatch { path: String },
}

/// One artifact of a manifest model. The install path is relative text.
#[derive(Clone, Debug)]
pub struct Artifact {
    pub role: String,
    pub remote: String,
    pub install_path: String,
    pub source_sha256: String,
    pub sha256: String,
    pub transform: String,
}

/// The transform applied when none is declared.
pub fn identity_transform() -> (r: String)
    ensures
        r@ == "identity"@,
{
    "identity".to_owned()
}

/// One model declared by the manifest.
#[derive(Clone, Debug)]
pub struct Model {
    pub identity: String,
    pub adapter: String,
    pub source: String,
    pub revision: String,
    pub license: String,
    pub artifacts: Vec<Artifact>,
}

/// The path of the first artifact with `role`, if any.
pub open spec fn resolved_artifact_path(artifacts: Seq<(Seq<char>, Seq<char>)>, role: Seq<char>) -> Option<
    Seq<char>,
>
    decreases artifacts.len(),
{
    if artifacts.len() == 0 {
        None
    } else if artifacts[0].0 == role {
        Some(artifacts[0].1)
    } else {
        resolved_artifact_path(artifacts.drop_first(), role)
    }
}

/// Provider-facing, verified artifact paths addressed by manifest role.
#[derive(Clone, Debug)]
pub struct ResolvedModel {
    identity: String,
    adapter: String,
    artifacts: Vec<(String, String)>,
}

impl ResolvedModel {
    pub closed spec fn spec_identity(&self) -> Seq<char> {
        self.identity@
    }

    pub closed spec fn spec_adapter(&self) -> Seq<char> {
        self.adapter@
    }

    /// (role, path) pairs in manifest order.
    pub closed spec fn spec_artifacts(&self) -> Seq<(Seq<char>, Seq<char>)> {
        self.artifacts@.map_values(|a: (String, String)| (a.0@, a.1@))
    }

    pub fn new(identity: String, adapter: String, artifacts: Vec<(String, String)>) -> (m: Self)
        ensures
            m.spec_identity() == identity@,
            m.spec_adapter() == adapter@,
            m.spec_artifacts() == artifacts@.map_values(|a: (String, String)| (a.0@, a.1@)),
    {
        ResolvedModel { identity, adapter, artifacts }
    }

    /// The installed path for a manifest role.
    pub fn artifact(&self, role: &str) -> (r: Option<&str>)
        ensures
            match resolved_artifact_path(self.spec_artifacts(), role@) {
                Some(p) => r matches Some(s) && s@ == p,
                None => r is None,
            },
    {
        let mut i: usize = 0;
        let ghost all = self.spec_artifacts();
        assert(all.skip(0) =~= all);
        while i < self.artifacts.len()
            invariant
                i <= self.artifacts@.len(),
                all == self.spec_artifacts(),
                all.len() == self.artifacts@.len(),
                resolved_artifact_path(all, role@) == resolved_artifact_path(all.skip(i as int), role@),
            decreases self.artifacts.len() - i,
        {
            let entry = &self.artifacts[i];
            let ghost rest = all.skip(i as int);
            assert(rest[0] == (entry.0@, entry.1@));
            if text_eq(entry.0.as_str(), role) {
                return Some(entry.1.as_str());
            }
            assert(rest.drop_first() =~= all.skip(i + 1));
            i = i + 1;
        }
        None
    }

    pub fn identity(&self) -> (s: &str)
        ensures
            s@ == self.spec_identity(),
    {
        self.identity.as_str()
    }

    pub fn adapter(&self) -> (s: &str)
        ensures
            s@ == self.spec_adapter(),
    {
        self.adapter.as_str()
    }
}

/// An acknowledgement covers a model when identity, revision and licence all match.
pub open spec fn acknowledges(ack: ModelAcknowledgement, model: Model) -> bool {
    &&& ack.model@ == model.identity@
    &&& ack.revision@ == model.revision@
    &&& ack.license@ == model.license@
}

/// The deployment must acknowledge the exact model revision and licence it loads.
pub fn require_acknowledgement(model: &Model, acknowledgements: &[ModelAcknowledgement]) -> (r: Result<
    (),
    ModelError,
>)
    ensures
        r is Ok <==> exists|i: int|
            0 <= i < acknowledgements@.len() && acknowledges(#[trigger] acknowledgements@[i], *model),
        r matches Err(e) ==> (e matches ModelError::MissingAcknowledgement {
            model: m,
            revision: v,
            license: l,
        } && m@ == model.identity@ && v@ == model.revision@ && l@ == model.license@),
{
    let mut i: usize = 0;
    while i < acknowledgements.len()
        invariant
            i <= acknowledgements@.len(),
            forall|j: int| 0 <= j < i ==> !acknowledges(#[trigger] acknowledgements@[j], *model),
        decreases acknowledgements.len() - i,
    {
        let ack = &acknowledgements[i];
        if text_eq(ack.model.as_str(), model.identity.as_str()) && text_eq(
            ack.revision.as_str(),
            model.revision.as_str(),
        ) && text_eq(ack.license.as_str(), model.license.as_str()) {
            return Ok(());
        }
        i = i + 1;
    }
    Err(
        ModelError::MissingAcknowledgement {
            model: model.identity.clone(),
            revision: model.revision.clone(),
            license: model.license.clone(),
        },
    )
}

/// `needle` occurs in `hay` as a contiguous run.
pub open spec fn contains_text(hay: Seq<char>, needle: Seq<char>) -> bool {
    exists|i: int| 0 <= i && i + needle.len() <= hay.len() && #[trigger] hay.subrange(i, i + needle.len()) == needle
}

/// Whether `hay` contains `needle`, as `str::contains` with a string pattern decides.
pub fn text_contains(hay: &str, needle: &str) -> (b: bool)
    ensures
        b == contains_text(hay@, needle@),
{
    let h = chars_of(hay);
    let n = chars_of(needle);
    if n.len() > h.len() {
        proof {
            assert forall|i: int| 0 <= i && i + n@.len() <= h@.len() implies #[trigger] h@.subrange(
                i,
                i + n@.len(),
            ) != n@ by {}
        }
        return false;
    }
    let hl = h.len();
    let nl = n.len();
    let mut i: usize = 0;
    while i <= hl - nl
        invariant
            hl == h@.len(),
            nl == n@.len(),
            n@.len() <= h@.len(),
            h@ == hay@,
            n@ == needle@,
            i <= h@.len() - n@.len() + 1,
            forall|j: int| 0 <= j < i ==> #[trigger] h@.subrange(j, j + n@.len()) != n@,
        decreases hl - i,
    {
        let mut k: usize = 0;
        let mut same = true;
        while k < nl
            invariant
                hl == h@.len(),
                nl == n@.len(),
                k <= n@.len(),
                i + n@.len() <= h@.len(),
                same == (forall|m: int| 0 <= m < k ==> h@[i + m] == n@[m]),
            decreases nl - k,
        {
            if h[i + k] != n[k] {
                same = false;
            }
            k = k + 1;
        }
        if same {
            assert(h@.subrange(i as int, i + n@.len()) =~= n@);
            return true;
        }
        assert(h@.subrange(i as int, i + n@.len()) != n@) by {
            if h@.subrange(i as int, i + n@.len()) == n@ {
                assert forall|m: int| 0 <= m < n@.len() implies h@[i + m] == n@[m] by {
                    assert(h@.subrange(i as int, i + n@.len())[m] == h@[i + m]);
                }
            }
        }
        i = i + 1;
    }
    false
}

/// A commercial deployment may not load a model under a non-commercial (`NC`) licence.
pub fn check_license(model: &Model, deployment: &DeploymentConfig) -> (r: Result<(), ModelError>)
    ensures
        r is Err <==> deployment.profile@ == "commercial"@ && contains_text(model.license@, "NC"@),
        r matches Err(e) ==> (e matches ModelError::LicenseDenied { model: m, profile: p }
            && m@ == model.identity@ && p@ == deployment.profile@),
{
    if text_eq(deployment.profile.as_str(), "commercial") && text_contains(
        model.license.as_str(),
        "NC",
    ) {
        return Err(
            ModelError::LicenseDenied {
                model: model.identity.clone(),
                profile: deployment.profile.clone(),
            },
        );
    }
    Ok(())
}

/// Whether a manifest model is the one a provider asks for.
pub open spec fn model_matches(m: Model, identity: Seq<char>, adapter: Seq<char>) -> bool {
    m.identity@ == identity && m.adapter@ == adapter
}

/// The first manifest model at or after `from` with this identity and adapter.
pub open spec fn first_model(models: Seq<Model>, identity: Seq<char>, adapter: Seq<char>, from: int) -> Option<int>
    decreases models.len() - from,
{
    if from < 0 || from >= models.len() {
        None
    } else if model_matches(models[from], identity, adapter) {
        Some(from)
    } else {
        first_model(models, identity, adapter, from + 1)
    }
}

pub proof fn lemma_first_model_bounds(models: Seq<Model>, identity: Seq<char>, adapter: Seq<char>, from: int)
    ensures
        first_model(models, identity, adapter, from) matches Some(i) ==> from <= i < models.len()
            && model_matches(models[i], identity, adapter),
    decreases models.len() - from,
{
    if 0 <= from < models.len() && !model_matches(models[from], identity, adapter) {
        lemma_first_model_bounds(models, identity, adapter, from + 1);
    }
}

/// Picks the manifest model declared for `identity` and `adapter`: the first such entry.
pub fn select_model(models: Vec<Model>, identity: &str, adapter: &str) -> (r: Result<Model, ModelError>)
    ensures
        match first_model(models@, identity@, adapter@, 0) {
            Some(i) => r == Ok::<Model, ModelError>(models@[i]),
            None => r matches Err(e) && (e matches ModelError::UnknownModel(s) && s@ == identity@),
        },
{
    let ghost all = models@;
    let mut work = models;
    let mut i: usize = 0;
    while i < work.len()
        invariant
            work@ == all,
            all == models@,
            i <= all.len(),
            first_model(all, identity@, adapter@, 0) == first_model(all, identity@, adapter@, i as int),
        decreases work.len() - i,
    {
        if text_eq(work[i].identity.as_str(), identity) && text_eq(work[i].adapter.as_str(), adapter) {
            let m = work.remove(i);
            return Ok(m);
        }
        i = i + 1;
    }
    Err(ModelError::UnknownModel(string_of(&chars_of(identity))))
}

/// Checks that `bytes` have the expected digest; a mismatch names the artifact at `path`.
pub fn verify_bytes(bytes: &[u8], expected: &str, path: &str) -> (r: Result<(), ModelError>)
    ensures
        r is Ok <==> hex_lower(sha256_digest(bytes@)) == expected@,
        r matches Err(e) ==> (e matches ModelError::HashMismatch { path: p } && p@ == path@),
{
    if digest_matches(bytes, expected) {
        Ok(())
    } else {
        Err(ModelError::HashMismatch { path: string_of(&chars_of(path)) })
    }
}

/// How installing one artifact begins.
#[derive(Debug, PartialEq, Eq)]
pub enum InstallStart {
    /// The installed file verifies against the artifact's digest: it is used as it is.
    UseInstalled,
    /// Create the install directory, remove any stale `.part` and `.transform` files, fetch
    /// the remote into `.part`, and hand its bytes to `prepared_source`.
    Fetch,
    /// Nothing may be fetched.
    Refused(ModelError),
}

/// Whether bytes verify against a lower-case hex SHA-256 digest.
pub open spec fn digest_of_is(bytes: Seq<u8>, expected: Seq<char>) -> bool {
    hex_lower(sha256_digest(bytes)) == expected
}

/// The first step of installing `artifact`: an installed file (`installed`, its bytes, or
/// `None` when there is none) that verifies is kept; otherwise an offline deployment is
/// refused with the install path, and an online one fetches the remote.
pub fn install_start(artifact: &Artifact, installed: Option<&[u8]>, offline: bool) -> (r: InstallStart)
    ensures
        (installed matches Some(b) && digest_of_is(b@, artifact.sha256@)) ==> r == InstallStart::UseInstalled,
        !(installed matches Some(b) && digest_of_is(b@, artifact.sha256@)) && offline ==> (r matches InstallStart::Refused(ModelError::Offline(p)) && p@ == artifact.install_path@),
        !(installed matches Some(b) && digest_of_is(b@, artifact.sha256@)) && !offline ==> r == InstallStart::Fetch,
{
    let verifies = match installed {
        Some(bytes) => digest_matches(bytes, artifact.sha256.as_str()),
        None => false,
    };
    if verifies {
        InstallStart::UseInstalled
    } else if offline {
        InstallStart::Refused(ModelError::Offline(string_of(&chars_of(artifact.install_path.as_str()))))
    } else {
        InstallStart::Fetch
    }
}

/// The second step: the fetched source (read back from `part_path`) must match the source
/// digest, and is then transformed as the artifact declares. The result is written to the
/// `.transform` file, which is installed (renamed over the install path, the `.part` file
/// removed) once it verifies against the artifact's digest with `verify_bytes`.
pub fn prepared_source(artifact: &Artifact, source: Vec<u8>, part_path: &str) -> (r: Result<Vec<u8>, ModelError>)
    ensures
        !digest_of_is(source@, artifact.source_sha256@) ==> (r matches Err(ModelError::HashMismatch { path: p }) && p@ == part_path@),
        digest_of_is(source@, artifact.source_sha256@) ==> match r {
            Ok(out) => transformed(source@, artifact.transform@) == Some(out@),
            Err(_) => transformed(source@, artifact.transform@) is None,
        },
{
    verify_bytes(source.as_slice(), artifact.source_sha256.as_str(), part_path)?;
    transform_bytes(source, artifact.transform.as_str())
}

} // verus!
