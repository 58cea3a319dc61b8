use vstd::prelude::*;

use crate::text::{decimal, decimal_text, lemma_decimal_has_no_dot, lemma_decimal_injective};

verus! {

/// The part that a file plays in one workflow run.
#[derive(Debug, Clone, Copy, PartialEq, Eq, Structural)]
pub enum ArtifactRole {
    /// The video fetched by the acquire workflow.
    Video,
    /// The audio extracted for transcription.
    Audio,
    /// The output of the trim workflow.
    Trimmed,
}

/// The name that starts the file name of each role.
pub open spec fn role_name(role: ArtifactRole) -> Seq<char> {
    match role {
        ArtifactRole::Video => "video"@,
        ArtifactRole::Audio => "audio"@,
        ArtifactRole::Trimmed => "trimmed"@,
    }
}

/// The path of the file with `role` and extension `ext` that the run
/// `request_id` writes under `dir`: `<dir>/<role>-<request_id>.<ext>`.
pub open spec fn artifact_path_of(dir: Seq<char>, role: ArtifactRole, request_id: nat, ext: Seq<char>) -> Seq<char> {
    dir + "/"@ + role_name(role) + "-"@ + decimal(request_id) + "."@ + ext
}

impl ArtifactRole {
    /// The name that starts the file name of this role.
    pub fn name(&self) -> (r: &'static str)
        ensures
            r@ == role_name(*self),
    {
        match self {
            ArtifactRole::Video => "video",
            ArtifactRole::Audio => "audio",
            ArtifactRole::Trimmed => "trimmed",
        }
    }
}

/// Returns the path of the file with `role` and extension `ext` that the run
/// `request_id` writes under `dir`.
pub fn artifact_path(dir: &str, role: ArtifactRole, request_id: u64, ext: &str) -> (r: String)
    ensures
        r@ == artifact_path_of(dir@, role, request_id as nat, ext@),
{
    let mut r = String::from_str(dir);
    r.append("/");
    r.append(role.name());
    r.append("-");
    let id = decimal_text(request_id);
    r.append(id.as_str());
    r.append(".");
    r.append(ext);
    r
}

/// Two runs with different request identifiers, or one run's files of two
/// different roles, never share a path under one directory, whatever the
/// extensions.
pub proof fn lemma_artifact_paths_distinct(
    dir: Seq<char>,
    role1: ArtifactRole,
    id1: nat,
    ext1: Seq<char>,
    role2: ArtifactRole,
    id2: nat,
    ext2: Seq<char>,
)
    requires
        role1 != role2 || id1 != id2,
    ensures
        artifact_path_of(dir, role1, id1, ext1) != artifact_path_of(dir, role2, id2, ext2),
{
    reveal_strlit("/");
    reveal_strlit("-");
    reveal_strlit(".");
    reveal_strlit("video");
    reveal_strlit("audio");
    reveal_strlit("trimmed");
    let p1 = artifact_path_of(dir, role1, id1, ext1);
    let p2 = artifact_path_of(dir, role2, id2, ext2);
    let base = dir.len() as int + 1;
    if role1 != role2 {
        assert(p1[base] == role_name(role1)[0]);
        assert(p2[base] == role_name(role2)[0]);
    } else {
        let head = dir + "/"@ + role_name(role1) + "-"@;
        let d1 = decimal(id1);
        let d2 = decimal(id2);
        assert(p1 =~= head + d1 + ("."@ + ext1));
        assert(p2 =~= head + d2 + ("."@ + ext2));
        let k = head.len() as int;
        if p1 == p2 {
            lemma_decimal_has_no_dot(id1);
            lemma_decimal_has_no_dot(id2);
            if d1.len() < d2.len() {
                assert(p1[k + d1.len() as int] == '.');
                assert(p2[k + d1.len() as int] == d2[d1.len() as int]);
            } else if d2.len() < d1.len() {
                assert(p2[k + d2.len() as int] == '.');
                assert(p1[k + d2.len() as int] == d1[d2.len() as int]);
            } else {
                assert(p1.subrange(k, k + d1.len() as int) =~= d1);
                assert(p2.subrange(k, k + d2.len() as int) =~= d2);
                lemma_decimal_injective(id1, id2);
            }
        }
    }
}

} // verus!
