//! Container-registry logic: repository naming rules, the registry's
//! endpoint and Docker credentials, and the decisions of the image and
//! repository operations against the registry's API.
//!
//! The network calls themselves are performed by the unverified shell;
//! this module owns every rule and every selection made on what those
//! calls return.

use vstd::prelude::*;
use vstd::pervasive::unreached;
use vstd::string::StrSliceExecFns;
use vstd::string::StringExecFns;
use vstd::utf8::encode_utf8;

use crate::text::base64_of_text;
use crate::text::encode_base64_str;

verus! {

/// A repository naming rule the registry enforces.
#[derive(Clone, Copy, Debug, PartialEq, Eq, Hash, Structural)]
pub enum RepositoryNamingRule {
    MinLengthNotReached { min_length: u32 },
    MaxLengthReached { max_length: u32 },
    AlphaNumericCharsDashesPeriodsOnly,
}

/// What `char::is_alphanumeric` returns: whether the character is
/// alphabetic or numeric under Unicode; a pure function of the
/// character.
pub uninterp spec fn is_alphanumeric_char(c: char) -> bool;

/// Relies on `char::is_alphanumeric`.
#[verifier::external_body]
fn char_is_alphanumeric(c: char) -> (b: bool)
    ensures
        b == is_alphanumeric_char(c),
{
    c.is_alphanumeric()
}

/// Characters a repository name may hold: alphanumerics, dashes and
/// periods.
pub open spec fn repository_name_char_allowed(c: char) -> bool {
    is_alphanumeric_char(c) || c == '-' || c == '.'
}

/// Whether every character of the name is allowed.
pub open spec fn repository_name_chars_ok(s: Seq<char>) -> bool {
    forall|i: int| 0 <= i < s.len() ==> repository_name_char_allowed(#[trigger] s[i])
}

/// The rules a name of `byte_len` UTF-8 bytes and these characters
/// breaks, in a fixed order: too short, too long, disallowed characters.
pub open spec fn naming_rules_broken(byte_len: nat, chars: Seq<char>) -> Seq<
    RepositoryNamingRule,
> {
    (if byte_len < 4 {
        seq![RepositoryNamingRule::MinLengthNotReached { min_length: 4 }]
    } else {
        Seq::empty()
    }) + (if byte_len > 54 {
        seq![RepositoryNamingRule::MaxLengthReached { max_length: 54 }]
    } else {
        Seq::empty()
    }) + (if !repository_name_chars_ok(chars) {
        seq![RepositoryNamingRule::AlphaNumericCharsDashesPeriodsOnly]
    } else {
        Seq::empty()
    })
}

/// The rules `name` breaks.
pub open spec fn rules_broken_by(name: Seq<char>) -> Seq<RepositoryNamingRule> {
    naming_rules_broken((encode_utf8(name).len() as usize) as nat, name)
}

/// Checks a repository name against the registry's naming rules: at
/// least four and at most fifty-four bytes, of alphanumerics, dashes
/// and periods only.  `None` when the name is acceptable; otherwise the
/// broken rules, shortest-first.
pub fn check_repository_naming_rules(name: String) -> (r: Option<Vec<RepositoryNamingRule>>)
    ensures
        r is None <==> rules_broken_by(name@).len() == 0,
        r matches Some(broken) ==> broken@ == rules_broken_by(name@),
{
    let mut broken: Vec<RepositoryNamingRule> = Vec::new();
    let byte_len = name.as_str().len();
    if byte_len < 4 {
        broken.push(RepositoryNamingRule::MinLengthNotReached { min_length: 4 });
    }
    if byte_len > 54 {
        broken.push(RepositoryNamingRule::MaxLengthReached { max_length: 54 });
    }
    let char_count = name.as_str().unicode_len();
    let mut all_ok = true;
    let mut i: usize = 0;
    while i < char_count
        invariant
            i <= char_count,
            char_count == name@.len(),
            all_ok == (forall|k: int| 0 <= k < i ==> repository_name_char_allowed(
                #[trigger] name@[k],
            )),
        decreases char_count - i,
    {
        let c = name.as_str().get_char(i);
        let allowed = char_is_alphanumeric(c) || c == '-' || c == '.';
        all_ok = all_ok && allowed;
        i = i + 1;
    }
    if !all_ok {
        broken.push(RepositoryNamingRule::AlphaNumericCharsDashesPeriodsOnly);
    }
    proof {
        assert(broken@ =~= rules_broken_by(name@));
    }
    if broken.len() == 0 {
        None
    } else {
        Some(broken)
    }
}

/// Whether `url::Url::parse` accepts this text; parsing is a pure
/// function of the input.
pub uninterp spec fn url_ok(s: Seq<char>) -> bool;

/// Relies on url's `Url::parse`: whether the text parses as an absolute
/// URL.
#[verifier::external_body]
fn parse_url_ok(s: &str) -> (b: bool)
    ensures
        b == url_ok(s@),
{
    url::Url::parse(s).is_ok()
}

/// The registry endpoint a region maps to.
pub open spec fn registry_raw_url(region: Seq<char>) -> Seq<char> {
    "https://rg."@ + region + ".scw.cloud"@
}

/// The registry's endpoint for a region, validated as a URL; a region
/// whose endpoint does not parse is rejected.
pub fn registry_url_for_region(region: &str) -> (r: Result<String, ContainerRegistryError>)
    ensures
        r is Ok <==> url_ok(registry_raw_url(region@)),
        (r matches Ok(u) ==> u@ == registry_raw_url(region@)),
        (r matches Err(e) ==> e matches ContainerRegistryError::InvalidRegistryUrl { registry_url }
            && registry_url@ == registry_raw_url(region@)),
{
    let raw = String::from_str("https://rg.").concat(region).concat(".scw.cloud");
    if parse_url_ok(raw.as_str()) {
        Ok(raw)
    } else {
        Err(ContainerRegistryError::InvalidRegistryUrl { registry_url: raw })
    }
}

/// The Docker auth document for the registry of a region: the registry
/// host mapped to the base64 of `login:token`.
pub open spec fn docker_auth_doc(login: Seq<char>, token: Seq<char>, region: Seq<char>) -> Seq<
    char,
> {
    "{\"auths\":{\"rg."@ + region + ".scw.cloud\":{\"auth\":\""@ + base64_of_text(
        login + ":"@ + token,
    ) + "\"}}}"@
}

/// The registry's Docker JSON credentials: the auth document, itself
/// base64-encoded.  `None` only when the inputs exceed the encoder's
/// bound; any inputs of up to a mebibyte together are accepted.
pub fn get_docker_json_config_raw(login: &str, secret_token: &str, region: &str) -> (r: Option<
    String,
>)
    ensures
        (r matches Some(s) ==> s@ == base64_of_text(
            docker_auth_doc(login@, secret_token@, region@),
        )),
        login@.len() + secret_token@.len() + region@.len() <= 0x10_0000 ==> r is Some,
{
    proof {
        reveal_strlit(":");
        reveal_strlit("{\"auths\":{\"rg.");
        reveal_strlit(".scw.cloud\":{\"auth\":\"");
        reveal_strlit("\"}}}");
    }
    let credentials = String::from_str(login).concat(":").concat(secret_token);
    if credentials.as_str().unicode_len() > 0x1000_0000 {
        return None;
    }
    let auth = encode_base64_str(credentials.as_str());
    let doc = String::from_str("{\"auths\":{\"rg.").concat(region).concat(
        ".scw.cloud\":{\"auth\":\"",
    ).concat(auth.as_str()).concat("\"}}}");
    if doc.as_str().unicode_len() > 0x1000_0000 {
        return None;
    }
    Some(encode_base64_str(doc.as_str()))
}

/// What a caller needs to use the registry: its endpoint, name and
/// Docker credentials.
#[derive(Clone, Debug)]
pub struct ContainerRegistryInfo {
    pub endpoint: String,
    pub registry_name: String,
    pub registry_docker_json_config: Option<String>,
    pub insecure_registry: bool,
}

impl ContainerRegistryInfo {
    /// How an image name maps to its path in this registry: each image
    /// lives in a repository of its own name.
    pub fn get_image_name(&self, image_name: &str) -> (r: String)
        ensures
            r@ == image_name@ + "/"@ + image_name@,
    {
        String::from_str(image_name).concat("/").concat(image_name)
    }

    /// How a repository name maps to its registry name: unchanged.
    pub fn get_repository_name(&self, repository_name: &str) -> (r: String)
        ensures
            r@ == repository_name@,
    {
        String::from_str(repository_name)
    }
}

/// The lifecycle states the registry reports for its objects.
#[derive(Clone, Copy, Debug, PartialEq, Eq, Structural)]
pub enum ScwRegistryStatus {
    Unknown,
    Ready,
    Deleting,
    Error,
    Locked,
}

/// An image as the registry lists it.
#[derive(Clone, Debug)]
pub struct ScwImage {
    pub id: Option<String>,
    pub name: Option<String>,
    pub status: Option<ScwRegistryStatus>,
    pub tags: Option<Vec<String>>,
}

/// A tag as the registry lists it.
#[derive(Clone, Debug)]
pub struct ScwTag {
    pub id: Option<String>,
    pub name: Option<String>,
}

/// A registry namespace as the registry lists it.
#[derive(Clone, Debug)]
pub struct ScwRegistryNamespace {
    pub id: Option<String>,
    pub name: Option<String>,
    pub endpoint: Option<String>,
    pub status: Option<ScwRegistryStatus>,
}

/// A repository as this engine reports it.
#[derive(Clone, Debug)]
pub struct Repository {
    pub registry_id: String,
    pub name: String,
    pub uri: Option<String>,
    pub ttl: Option<u32>,
    pub labels: Option<Vec<(String, String)>>,
}

/// Whether a repository lookup found or created it.
#[derive(Clone, Copy, Debug)]
pub struct RepositoryInfo {
    pub created: bool,
}

/// An image to operate on: its name, the tag wanted, and the repository
/// it lives in.
#[derive(Clone, Debug)]
pub struct Image {
    pub name: String,
    pub tag: String,
    pub registry_name: String,
}

/// The registry operations' failures, each carrying the context shown
/// to the user.
#[derive(Clone, Debug)]
pub enum ContainerRegistryError {
    InvalidRegistryUrl { registry_url: String },
    InvalidCredentials,
    ImageDoesntExistInRegistry { registry_name: String, repository_name: String, image_name: String },
    CannotDeleteImage {
        registry_name: String,
        repository_name: String,
        image_name: String,
        raw_error_message: String,
    },
    RepositoryNameNotValid {
        registry_name: String,
        repository_name: String,
        broken_rules: Vec<RepositoryNamingRule>,
    },
    CannotCreateRepository { registry_name: String, repository_name: String, raw_error_message: String },
    CannotGetRepository { registry_name: String, repository_name: String, raw_error_message: String },
    RepositoryDoesntExistInRegistry { registry_name: String, repository_name: String },
    CannotDeleteRepository { registry_name: String, repository_name: String, raw_error_message: String },
}

/// The text an optional field stands for; absence is the empty text.
pub open spec fn text_or_empty(o: Option<String>) -> Seq<char> {
    match o {
        Some(s) => s@,
        None => Seq::empty(),
    }
}

/// Clones an optional text field.
fn clone_optional_text(o: &Option<String>) -> (r: Option<String>)
    ensures
        r == *o,
{
    match o {
        Some(s) => Some(s.clone()),
        None => None,
    }
}

/// The text of an optional field, or empty when absent.
fn text_or_empty_exec(o: &Option<String>) -> (r: String)
    ensures
        r@ == text_or_empty(*o),
{
    match o {
        Some(s) => s.clone(),
        None => String::new(),
    }
}

/// Whether the listed image carries this tag.
pub open spec fn image_has_tag(img: ScwImage, tag: Seq<char>) -> bool {
    img.tags matches Some(ts) && exists|k: int| 0 <= k < ts@.len() && (#[trigger] ts@[k])@ == tag
}

/// Index of the first listed image carrying the tag, at or after `from`.
pub open spec fn first_image_with_tag(imgs: Seq<ScwImage>, tag: Seq<char>, from: int) -> Option<
    int,
>
    decreases imgs.len() - from when 0 <= from <= imgs.len()
{
    if from >= imgs.len() {
        None
    } else if image_has_tag(imgs[from], tag) {
        Some(from)
    } else {
        first_image_with_tag(imgs, tag, from + 1)
    }
}

/// What `first_image_with_tag` returns.
pub proof fn lemma_first_image_with_tag(imgs: Seq<ScwImage>, tag: Seq<char>, from: int)
    requires
        0 <= from <= imgs.len(),
    ensures
        match first_image_with_tag(imgs, tag, from) {
            Some(i) => from <= i < imgs.len() && image_has_tag(imgs[i], tag) && forall|j: int|
                from <= j < i ==> !image_has_tag(imgs[j], tag),
            None => forall|j: int| from <= j < imgs.len() ==> !image_has_tag(imgs[j], tag),
        },
    decreases imgs.len() - from,
{
    if from < imgs.len() && !image_has_tag(imgs[from], tag) {
        lemma_first_image_with_tag(imgs, tag, from + 1);
    }
}

/// True exec counterpart of [`image_has_tag`].
fn image_carries_tag(img: &ScwImage, tag: &String) -> (b: bool)
    ensures
        b == image_has_tag(*img, tag@),
{
    match &img.tags {
        None => false,
        Some(ts) => {
            let mut j: usize = 0;
            while j < ts.len()
                invariant
                    j <= ts.len(),
                    img.tags matches Some(inner) && inner@ == ts@,
                    forall|k: int| 0 <= k < j ==> (#[trigger] ts@[k])@ != tag@,
                decreases ts.len() - j,
            {
                if ts[j] == *tag {
                    proof {
                        assert((ts@[j as int])@ == tag@);
                        assert(image_has_tag(*img, tag@));
                    }
                    return true;
                }
                j = j + 1;
            }
            proof {
                assert(!image_has_tag(*img, tag@));
            }
            false
        },
    }
}

/// Selects, from a registry listing, the image carrying the wanted tag:
/// the registry cannot filter by tag, so the first image whose tags hold
/// it is taken.  A failed or empty listing yields nothing — this lookup
/// is best-effort and never raises.
pub fn get_image(listing: Result<Option<Vec<ScwImage>>, String>, tag: &str) -> (r: Option<
    ScwImage,
>)
    ensures
        (listing matches Ok(Some(imgs)) ==> match first_image_with_tag(imgs@, tag@, 0) {
            Some(i) => r matches Some(img) && img == imgs@[i],
            None => r is None,
        }),
        !(listing matches Ok(Some(_))) ==> r is None,
{
    let tag_text = String::from_str(tag);
    match listing {
        Ok(Some(mut imgs)) => {
            proof {
                lemma_first_image_with_tag(imgs@, tag@, 0);
            }
            let mut i: usize = 0;
            while i < imgs.len()
                invariant
                    i <= imgs.len(),
                    tag_text@ == tag@,
                    listing matches Ok(Some(v)) && v@ == imgs@,
                    first_image_with_tag(imgs@, tag@, 0) == first_image_with_tag(
                        imgs@,
                        tag@,
                        i as int,
                    ),
                decreases imgs.len() - i,
            {
                if image_carries_tag(&imgs[i], &tag_text) {
                    proof {
                        assert(first_image_with_tag(imgs@, tag@, i as int) == Some(i as int));
                    }
                    let img = imgs.remove(i);
                    return Some(img);
                }
                i = i + 1;
            }
            None
        },
        _ => None,
    }
}

/// Whether the listed tag carries this name; a tag without a name
/// stands for the empty text.
pub open spec fn tag_named(t: ScwTag, name: Seq<char>) -> bool {
    text_or_empty(t.name) == name
}

/// Index of the first listed tag carrying the name, at or after `from`.
pub open spec fn first_tag_named(tags: Seq<ScwTag>, name: Seq<char>, from: int) -> Option<int>
    decreases tags.len() - from when 0 <= from <= tags.len()
{
    if from >= tags.len() {
        None
    } else if tag_named(tags[from], name) {
        Some(from)
    } else {
        first_tag_named(tags, name, from + 1)
    }
}

/// What `first_tag_named` returns.
pub proof fn lemma_first_tag_named(tags: Seq<ScwTag>, name: Seq<char>, from: int)
    requires
        0 <= from <= tags.len(),
    ensures
        match first_tag_named(tags, name, from) {
            Some(i) => from <= i < tags.len() && tag_named(tags[i], name) && forall|j: int|
                from <= j < i ==> !tag_named(tags[j], name),
            None => forall|j: int| from <= j < tags.len() ==> !tag_named(tags[j], name),
        },
    decreases tags.len() - from,
{
    if from < tags.len() && !tag_named(tags[from], name) {
        lemma_first_tag_named(tags, name, from + 1);
    }
}

/// An order from the image deletion to the shell.
#[derive(Debug)]
pub enum DeleteImageAction {
    /// List the registry's images named `name`; answer with
    /// [`DeleteImageEvent::ImagesListed`].
    ListImages { name: String },
    /// List the tags of the image with this identifier; answer with
    /// [`DeleteImageEvent::TagsListed`].
    ListTags { image_id: String },
    /// Delete the tag with this identifier, image included; answer with
    /// [`DeleteImageEvent::TagDeleted`].
    DeleteTag { tag_id: String },
    /// Deletion finished: the deleted image, or why it failed.
    Finished { result: Result<ScwImage, ContainerRegistryError> },
}

/// An observed result handed back by the shell.
#[derive(Debug)]
pub enum DeleteImageEvent {
    ImagesListed(Result<Option<Vec<ScwImage>>, String>),
    TagsListed(Result<Option<Vec<ScwTag>>, String>),
    TagDeleted(Result<(), String>),
}

/// Where the image deletion stands.
#[derive(Clone, Copy, Debug)]
pub enum DeleteImagePhase {
    ImagesWait,
    TagsWait,
    DeleteWait,
    Complete,
}

/// One image deletion in flight: the image is looked up by name and
/// tag, the matching tag is found among the image's tags, and that tag
/// is deleted together with its image.
pub struct DeleteImageFlow {
    pub registry_name: String,
    pub repository_name: String,
    pub image_name: String,
    pub image_tag: String,
    /// The image selected for deletion, once found.
    pub image_to_delete: Option<ScwImage>,
    pub phase: DeleteImagePhase,
}

/// Well-formedness: once past the lookup, the selected image is at hand.
pub open spec fn delete_image_wf(m: DeleteImageFlow) -> bool {
    match m.phase {
        DeleteImagePhase::TagsWait => m.image_to_delete is Some,
        DeleteImagePhase::DeleteWait => m.image_to_delete is Some,
        _ => true,
    }
}

/// The event the deletion expects in its current phase.
pub open spec fn delete_image_expects(m: DeleteImageFlow, e: DeleteImageEvent) -> bool {
    match m.phase {
        DeleteImagePhase::ImagesWait => e is ImagesListed,
        DeleteImagePhase::TagsWait => e is TagsListed,
        DeleteImagePhase::DeleteWait => e is TagDeleted,
        DeleteImagePhase::Complete => false,
    }
}

/// The failure of a deletion step, with the image's full context.
pub open spec fn cannot_delete(m: DeleteImageFlow, e: ContainerRegistryError, raw: Seq<char>) -> bool {
    e matches ContainerRegistryError::CannotDeleteImage {
        registry_name,
        repository_name,
        image_name,
        raw_error_message,
    } && registry_name == m.registry_name && repository_name == m.repository_name && image_name
        == m.image_name && raw_error_message@ == raw
}

/// Begins the deletion of `image` from the registry.
pub fn delete_image(registry_name: &str, image: &Image) -> (r: (DeleteImageFlow, DeleteImageAction))
    ensures
        delete_image_wf(r.0),
        r.0.registry_name@ == registry_name@,
        r.0.repository_name == image.registry_name,
        r.0.image_name == image.name,
        r.0.image_tag == image.tag,
        r.0.phase is ImagesWait,
        r.1 matches DeleteImageAction::ListImages { name } && name == image.name,
{
    let flow = DeleteImageFlow {
        registry_name: String::from_str(registry_name),
        repository_name: image.registry_name.clone(),
        image_name: image.name.clone(),
        image_tag: image.tag.clone(),
        image_to_delete: None,
        phase: DeleteImagePhase::ImagesWait,
    };
    let action = DeleteImageAction::ListImages { name: image.name.clone() };
    (flow, action)
}

impl DeleteImageFlow {
    /// Feeds one observed result back and returns the next order.
    ///
    /// An image that cannot be found — including a failed or empty
    /// listing — does not exist in the registry; every later failure is
    /// a deletion failure carrying the underlying message.  When the
    /// image's tags hold no tag of the wanted name, the deletion fails
    /// with `Tag not found`.
    pub fn on_event(&mut self, event: DeleteImageEvent) -> (action: DeleteImageAction)
        requires
            delete_image_wf(*old(self)),
            delete_image_expects(*old(self), event),
        ensures
            delete_image_wf(*final(self)),
            final(self).registry_name == old(self).registry_name,
            final(self).repository_name == old(self).repository_name,
            final(self).image_name == old(self).image_name,
            final(self).image_tag == old(self).image_tag,
            (event matches DeleteImageEvent::ImagesListed(res) ==> match res {
                Ok(Some(imgs)) => match first_image_with_tag(imgs@, old(self).image_tag@, 0) {
                    Some(i) => final(self).phase is TagsWait && final(self).image_to_delete
                        == Some(imgs@[i]) && (action matches DeleteImageAction::ListTags {
                        image_id,
                    } && image_id@ == text_or_empty(imgs@[i].id)),
                    None => final(self).phase is Complete
                        && (action matches DeleteImageAction::Finished { result }
                        && result matches Err(e)
                        && image_missing(*old(self), e)),
                },
                _ => final(self).phase is Complete
                    && (action matches DeleteImageAction::Finished { result }
                    && result matches Err(e)
                    && image_missing(*old(self), e)),
            }),
            (event matches DeleteImageEvent::TagsListed(res) ==> match res {
                Ok(opt_tags) => ({
                    let tags = match opt_tags {
                        Some(ts) => ts@,
                        None => Seq::empty(),
                    };
                    match first_tag_named(tags, old(self).image_tag@, 0) {
                        Some(i) => final(self).phase is DeleteWait
                            && (action matches DeleteImageAction::DeleteTag { tag_id }
                            && tag_id@ == text_or_empty(tags[i].id)),
                        None => final(self).phase is Complete
                            && (action matches DeleteImageAction::Finished { result }
                            && result matches Err(e)
                            && cannot_delete(*old(self), e, "Tag not found"@)),
                    }
                }),
                Err(raw) => final(self).phase is Complete
                    && (action matches DeleteImageAction::Finished { result }
                    && result matches Err(e)
                    && cannot_delete(*old(self), e, raw@)),
            }),
            (event matches DeleteImageEvent::TagDeleted(res) ==> match res {
                Ok(_) => final(self).phase is Complete
                    && (action matches DeleteImageAction::Finished { result }
                    && result matches Ok(img) && Some(img) == old(self).image_to_delete),
                Err(raw) => final(self).phase is Complete
                    && (action matches DeleteImageAction::Finished { result }
                    && result matches Err(e)
                    && cannot_delete(*old(self), e, raw@)),
            }),
    {
        let ph = self.phase;
        match (ph, event) {
            (DeleteImagePhase::ImagesWait, DeleteImageEvent::ImagesListed(res)) => {
                let selected = get_image(res, self.image_tag.as_str());
                match selected {
                    Some(img) => {
                        let image_id = text_or_empty_exec(&img.id);
                        self.image_to_delete = Some(img);
                        self.phase = DeleteImagePhase::TagsWait;
                        DeleteImageAction::ListTags { image_id }
                    },
                    None => {
                        self.phase = DeleteImagePhase::Complete;
                        DeleteImageAction::Finished { result: Err(self.image_missing_error()) }
                    },
                }
            },
            (DeleteImagePhase::TagsWait, DeleteImageEvent::TagsListed(res)) => match res {
                Ok(opt_tags) => {
                    let tags = match opt_tags {
                        Some(ts) => ts,
                        None => Vec::new(),
                    };
                    let found = scan_tags(&tags, &self.image_tag);
                    match found {
                        Some(i) => {
                            let tag_id = text_or_empty_exec(&tags[i].id);
                            self.phase = DeleteImagePhase::DeleteWait;
                            DeleteImageAction::DeleteTag { tag_id }
                        },
                        None => {
                            self.phase = DeleteImagePhase::Complete;
                            DeleteImageAction::Finished {
                                result: Err(
                                    self.cannot_delete_error(String::from_str("Tag not found")),
                                ),
                            }
                        },
                    }
                },
                Err(raw) => {
                    self.phase = DeleteImagePhase::Complete;
                    DeleteImageAction::Finished { result: Err(self.cannot_delete_error(raw)) }
                },
            },
            (DeleteImagePhase::DeleteWait, DeleteImageEvent::TagDeleted(res)) => match res {
                Ok(_) => {
                    self.phase = DeleteImagePhase::Complete;
                    let img = match self.image_to_delete.take() {
                        Some(img) => img,
                        None => unreached(),
                    };
                    DeleteImageAction::Finished { result: Ok(img) }
                },
                Err(raw) => {
                    self.phase = DeleteImagePhase::Complete;
                    DeleteImageAction::Finished { result: Err(self.cannot_delete_error(raw)) }
                },
            },
            _ => unreached(),
        }
    }

    /// The image-not-found failure, with this deletion's context.
    fn image_missing_error(&self) -> (e: ContainerRegistryError)
        ensures
            image_missing(*self, e),
    {
        ContainerRegistryError::ImageDoesntExistInRegistry {
            registry_name: self.registry_name.clone(),
            repository_name: self.repository_name.clone(),
            image_name: self.image_name.clone(),
        }
    }

    /// A deletion-step failure, with this deletion's context.
    fn cannot_delete_error(&self, raw_error_message: String) -> (e: ContainerRegistryError)
        ensures
            cannot_delete(*self, e, raw_error_message@),
    {
        ContainerRegistryError::CannotDeleteImage {
            registry_name: self.registry_name.clone(),
            repository_name: self.repository_name.clone(),
            image_name: self.image_name.clone(),
            raw_error_message,
        }
    }
}

/// Scans the tag listing for the first tag of the wanted name.
fn scan_tags(tags: &Vec<ScwTag>, name: &String) -> (found: Option<usize>)
    ensures
        match found {
            Some(i) => first_tag_named(tags@, name@, 0) == Some(i as int) && i < tags@.len(),
            None => first_tag_named(tags@, name@, 0) is None,
        },
{
    proof {
        lemma_first_tag_named(tags@, name@, 0);
    }
    let mut j: usize = 0;
    while j < tags.len()
        invariant
            j <= tags.len(),
            first_tag_named(tags@, name@, 0) == first_tag_named(tags@, name@, j as int),
        decreases tags.len() - j,
    {
        let matches_name = match &tags[j].name {
            Some(n) => *n == *name,
            None => name.as_str().unicode_len() == 0,
        };
        if matches_name {
            proof {
                assert(text_or_empty(tags@[j as int].name) =~= name@);
                assert(first_tag_named(tags@, name@, j as int) == Some(j as int));
            }
            return Some(j);
        }
        j = j + 1;
    }
    None
}

/// The image-not-found failure, with the deletion's context.
pub open spec fn image_missing(m: DeleteImageFlow, e: ContainerRegistryError) -> bool {
    e matches ContainerRegistryError::ImageDoesntExistInRegistry {
        registry_name,
        repository_name,
        image_name,
    } && registry_name == m.registry_name && repository_name == m.repository_name && image_name
        == m.image_name
}

/// Whether the listed namespace is ready to serve.
pub open spec fn namespace_ready(ns: ScwRegistryNamespace) -> bool {
    ns.status == Some(ScwRegistryStatus::Ready)
}

/// Index of the first ready namespace at or after `from`.
pub open spec fn first_ready_namespace(nss: Seq<ScwRegistryNamespace>, from: int) -> Option<int>
    decreases nss.len() - from when 0 <= from <= nss.len()
{
    if from >= nss.len() {
        None
    } else if namespace_ready(nss[from]) {
        Some(from)
    } else {
        first_ready_namespace(nss, from + 1)
    }
}

/// What `first_ready_namespace` returns.
pub proof fn lemma_first_ready_namespace(nss: Seq<ScwRegistryNamespace>, from: int)
    requires
        0 <= from <= nss.len(),
    ensures
        match first_ready_namespace(nss, from) {
            Some(i) => from <= i < nss.len() && namespace_ready(nss[i]) && forall|j: int|
                from <= j < i ==> !namespace_ready(nss[j]),
            None => forall|j: int| from <= j < nss.len() ==> !namespace_ready(nss[j]),
        },
    decreases nss.len() - from,
{
    if from < nss.len() && !namespace_ready(nss[from]) {
        lemma_first_ready_namespace(nss, from + 1);
    }
}

/// The repository a listed namespace stands for: its identifier and
/// name (empty when the registry omitted them), its endpoint, and no
/// time-to-live or labels.
pub open spec fn repository_of_namespace(ns: ScwRegistryNamespace, r: Repository) -> bool {
    &&& r.registry_id@ == text_or_empty(ns.id)
    &&& r.name@ == text_or_empty(ns.name)
    &&& r.uri == ns.endpoint
    &&& r.ttl is None
    &&& r.labels is None
}

/// The lookup failure of a repository, with its context.
pub open spec fn cannot_get_repository(
    registry_name: Seq<char>,
    repository_name: Seq<char>,
    raw: Seq<char>,
    e: ContainerRegistryError,
) -> bool {
    e matches ContainerRegistryError::CannotGetRepository {
        registry_name: rn,
        repository_name: pn,
        raw_error_message,
    } && rn@ == registry_name && pn@ == repository_name && raw_error_message@ == raw
}

/// Resolves a repository from the registry's namespace listing: every
/// namespace name is unique, so the first listed namespace that is
/// ready is the repository.  A failed listing, and a listing with no
/// ready namespace, fail the lookup with the underlying or a
/// not-found message.
pub fn get_repository(
    registry_name: &str,
    repository_name: &str,
    listing: Result<Option<Vec<ScwRegistryNamespace>>, String>,
) -> (r: Result<Repository, ContainerRegistryError>)
    ensures
        (listing matches Err(raw) ==> r matches Err(e) && cannot_get_repository(
            registry_name@,
            repository_name@,
            raw@,
            e,
        )),
        (listing matches Ok(opt) ==> ({
            let nss = match opt {
                Some(v) => v@,
                None => Seq::empty(),
            };
            match first_ready_namespace(nss, 0) {
                Some(i) => r matches Ok(repo) && repository_of_namespace(nss[i], repo),
                None => r matches Err(e) && cannot_get_repository(
                    registry_name@,
                    repository_name@,
                    "No repository found with name `"@ + repository_name@ + "`"@,
                    e,
                ),
            }
        })),
{
    match listing {
        Ok(opt) => {
            let nss = match opt {
                Some(v) => v,
                None => Vec::new(),
            };
            let found = scan_ready_namespace(&nss);
            match found {
                Some(i) => {
                    let repo = Repository {
                        registry_id: text_or_empty_exec(&nss[i].id),
                        name: text_or_empty_exec(&nss[i].name),
                        uri: clone_optional_text(&nss[i].endpoint),
                        ttl: None,
                        labels: None,
                    };
                    Ok(repo)
                },
                None => {
                    let raw = String::from_str("No repository found with name `").concat(
                        repository_name,
                    ).concat("`");
                    Err(ContainerRegistryError::CannotGetRepository {
                        registry_name: String::from_str(registry_name),
                        repository_name: String::from_str(repository_name),
                        raw_error_message: raw,
                    })
                },
            }
        },
        Err(raw) => Err(ContainerRegistryError::CannotGetRepository {
            registry_name: String::from_str(registry_name),
            repository_name: String::from_str(repository_name),
            raw_error_message: raw,
        }),
    }
}

/// Scans the namespace listing for the first ready namespace.
fn scan_ready_namespace(nss: &Vec<ScwRegistryNamespace>) -> (found: Option<usize>)
    ensures
        match found {
            Some(i) => first_ready_namespace(nss@, 0) == Some(i as int) && i < nss@.len(),
            None => first_ready_namespace(nss@, 0) is None,
        },
{
    proof {
        lemma_first_ready_namespace(nss@, 0);
    }
    let mut j: usize = 0;
    while j < nss.len()
        invariant
            j <= nss.len(),
            first_ready_namespace(nss@, 0) == first_ready_namespace(nss@, j as int),
        decreases nss.len() - j,
    {
        let ready = match &nss[j].status {
            Some(s) => *s == ScwRegistryStatus::Ready,
            None => false,
        };
        if ready {
            proof {
                assert(first_ready_namespace(nss@, j as int) == Some(j as int));
            }
            return Some(j);
        }
        j = j + 1;
    }
    None
}

/// The target of a repository deletion: the repository as looked up; a
/// repository that cannot be found does not exist in the registry.
pub fn delete_repository_target(
    registry_name: &str,
    repository_name: &str,
    lookup: Result<Repository, ContainerRegistryError>,
) -> (r: Result<Repository, ContainerRegistryError>)
    ensures
        r is Ok <==> lookup is Ok,
        (lookup matches Ok(repo) ==> r == Ok::<Repository, ContainerRegistryError>(repo)),
        (lookup is Err ==> (r matches Err(e)
            && e matches ContainerRegistryError::RepositoryDoesntExistInRegistry {
            registry_name: rn,
            repository_name: pn,
        } && rn@ == registry_name@ && pn@ == repository_name@)),
{
    match lookup {
        Ok(repo) => Ok(repo),
        Err(_) => Err(ContainerRegistryError::RepositoryDoesntExistInRegistry {
            registry_name: String::from_str(registry_name),
            repository_name: String::from_str(repository_name),
        }),
    }
}

/// The conclusion of a repository deletion: the registry's success
/// passes through; its failure carries the underlying message.
pub fn conclude_delete_repository(
    registry_name: &str,
    repository_name: &str,
    api_result: Result<(), String>,
) -> (r: Result<(), ContainerRegistryError>)
    ensures
        r is Ok <==> api_result is Ok,
        (api_result matches Err(raw) ==> r matches Err(e)
            && e matches ContainerRegistryError::CannotDeleteRepository {
            registry_name: rn,
            repository_name: pn,
            raw_error_message,
        } && rn@ == registry_name@ && pn@ == repository_name@ && raw_error_message == raw),
{
    match api_result {
        Ok(_) => Ok(()),
        Err(raw) => Err(ContainerRegistryError::CannotDeleteRepository {
            registry_name: String::from_str(registry_name),
            repository_name: String::from_str(repository_name),
            raw_error_message: raw,
        }),
    }
}

/// The creation request of a registry namespace, as the registry's API
/// takes it.
#[derive(Clone, Debug)]
pub struct CreateNamespaceRequest {
    pub name: String,
    pub description: Option<String>,
    pub project_id: Option<String>,
    pub is_public: Option<bool>,
    pub organization_id: Option<String>,
}

/// Validates a namespace name and builds its creation request: a name
/// breaking any naming rule is rejected with exactly the broken rules;
/// an acceptable name yields a private namespace under the project.
pub fn create_registry_namespace_request(
    registry_name: &str,
    namespace_name: &str,
    project_id: &str,
) -> (r: Result<CreateNamespaceRequest, ContainerRegistryError>)
    ensures
        r is Ok <==> rules_broken_by(namespace_name@).len() == 0,
        (r matches Ok(req) ==> req.name@ == namespace_name@ && req.description is None
            && (req.project_id matches Some(p) && p@ == project_id@)
            && req.is_public == Some(false) && req.organization_id is None),
        (r matches Err(e) ==> e matches ContainerRegistryError::RepositoryNameNotValid {
            registry_name: rn,
            repository_name: pn,
            broken_rules,
        } && rn@ == registry_name@ && pn@ == namespace_name@ && broken_rules@ == rules_broken_by(
            namespace_name@,
        )),
{
    match check_repository_naming_rules(String::from_str(namespace_name)) {
        Some(broken_rules) => Err(ContainerRegistryError::RepositoryNameNotValid {
            registry_name: String::from_str(registry_name),
            repository_name: String::from_str(namespace_name),
            broken_rules,
        }),
        None => Ok(CreateNamespaceRequest {
            name: String::from_str(namespace_name),
            description: None,
            project_id: Some(String::from_str(project_id)),
            is_public: Some(false),
            organization_id: None,
        }),
    }
}

/// The conclusion of a namespace creation: the created namespace
/// becomes the repository; a creation failure carries the underlying
/// message.
pub fn conclude_create_registry_namespace(
    registry_name: &str,
    namespace_name: &str,
    api_result: Result<ScwRegistryNamespace, String>,
) -> (r: Result<Repository, ContainerRegistryError>)
    ensures
        r is Ok <==> api_result is Ok,
        (api_result matches Ok(ns) ==> r matches Ok(repo) && repository_of_namespace(ns, repo)),
        (api_result matches Err(raw) ==> r matches Err(e)
            && e matches ContainerRegistryError::CannotCreateRepository {
            registry_name: rn,
            repository_name: pn,
            raw_error_message,
        } && rn@ == registry_name@ && pn@ == namespace_name@ && raw_error_message == raw),
{
    match api_result {
        Ok(ns) => Ok(Repository {
            registry_id: text_or_empty_exec(&ns.id),
            name: text_or_empty_exec(&ns.name),
            uri: ns.endpoint,
            ttl: None,
            labels: None,
        }),
        Err(raw) => Err(ContainerRegistryError::CannotCreateRepository {
            registry_name: String::from_str(registry_name),
            repository_name: String::from_str(namespace_name),
            raw_error_message: raw,
        }),
    }
}

/// The first half of get-or-create: a repository the lookup found is
/// returned as not newly created; a failed lookup yields nothing, and
/// the caller proceeds to create the namespace.
pub fn get_or_create_registry_namespace(
    lookup: Result<Repository, ContainerRegistryError>,
) -> (r: Option<(Repository, RepositoryInfo)>)
    ensures
        r is Some <==> lookup is Ok,
        (lookup matches Ok(repo) ==> r matches Some(pair) && pair.0 == repo
            && pair.1.created == false),
{
    match lookup {
        Ok(repo) => Some((repo, RepositoryInfo { created: false })),
        Err(_) => None,
    }
}

/// The second half of get-or-create: a namespace that had to be created
/// is returned as newly created.
pub fn registry_namespace_created(namespace: Repository) -> (r: (Repository, RepositoryInfo))
    ensures
        r.0 == namespace,
        r.1.created == true,
{
    (namespace, RepositoryInfo { created: true })
}

/// What a probe loop decides after one probe.
#[derive(Clone, Copy, Debug, PartialEq, Eq, Structural)]
pub enum RetryDecision {
    /// The probe succeeded: stop, the image exists.
    Accept,
    /// Probe again after this many milliseconds.
    RetryAfterMillis(u64),
    /// All probes failed: stop, the image could not be seen.
    GiveUp,
}

/// A fixed-delay retry policy: up to `remaining_delays` further probes,
/// each after the same delay.
#[derive(Clone, Copy, Debug)]
pub struct FixedRetryPolicy {
    pub delay_ms: u64,
    pub remaining_delays: u32,
}

/// The policy of the image-existence probe: the registry is sometimes
/// flaky right after a push, so the probe is retried up to five times,
/// a second apart, until the image is seen.
pub fn image_exists_retry_policy() -> (p: FixedRetryPolicy)
    ensures
        p.delay_ms == 1000,
        p.remaining_delays == 5,
{
    FixedRetryPolicy { delay_ms: 1000, remaining_delays: 5 }
}

impl FixedRetryPolicy {
    /// Decides after one probe: success is accepted at once; a failed
    /// probe is retried after the fixed delay while retries are left,
    /// and given up on otherwise.
    pub fn on_probe(&mut self, image_seen: bool) -> (decision: RetryDecision)
        ensures
            final(self).delay_ms == old(self).delay_ms,
            image_seen ==> decision == RetryDecision::Accept && final(self).remaining_delays == old(
                self,
            ).remaining_delays,
            !image_seen && old(self).remaining_delays > 0 ==> decision
                == RetryDecision::RetryAfterMillis(old(self).delay_ms)
                && final(self).remaining_delays == old(self).remaining_delays - 1,
            !image_seen && old(self).remaining_delays == 0 ==> decision == RetryDecision::GiveUp
                && final(self).remaining_delays == 0,
    {
        if image_seen {
            RetryDecision::Accept
        } else if self.remaining_delays > 0 {
            self.remaining_delays = self.remaining_delays - 1;
            RetryDecision::RetryAfterMillis(self.delay_ms)
        } else {
            RetryDecision::GiveUp
        }
    }
}

} // verus!
