//! Image enrichment for ingested records: deriving the deterministic CDN
//! identifier of each branding image, signing the source URL, and judging
//! the CDN's answer — including the "resource already exists" conflict,
//! which counts as success because the public URL can be synthesized from
//! the same deterministic identifier.

use vstd::prelude::*;
use crate::error::{Error, ErrorType};
use crate::text::eq_str;

verus! {

/// The CDN's "resource already exists" error code.
pub const CDN_ALREADY_EXISTS_CODE: i64 = 5409;

/// Whether an image is a company's logo or its icon.
#[derive(Clone, Copy, PartialEq, Eq, Structural, Debug)]
pub enum ImageType {
    Logo,
    Icon,
}

impl ImageType {
    /// The identifier prefix of this image type.
    pub open spec fn spec_str(self) -> Seq<char> {
        match self {
            ImageType::Logo => "logo"@,
            ImageType::Icon => "icon"@,
        }
    }

    pub fn to_string(&self) -> (r: String)
        ensures
            r@ == self.spec_str(),
    {
        match self {
            ImageType::Logo => String::from_str("logo"),
            ImageType::Icon => String::from_str("icon"),
        }
    }
}

/// The suffix of `s` that starts at its last dot: the URL's extension,
/// dot included. `None` when there is no dot.
pub open spec fn ext_from_last_dot(s: Seq<char>) -> Option<Seq<char>>
    decreases s.len(),
{
    if s.len() == 0 {
        None
    } else if s.last() == '.' {
        Some(seq!['.'])
    } else {
        match ext_from_last_dot(s.drop_last()) {
            Some(e) => Some(e.push(s.last())),
            None => None,
        }
    }
}

/// The image formats the pipeline accepts.
pub open spec fn accepted_image_format(e: Seq<char>) -> bool {
    ||| e == ".png"@
    ||| e == ".jpg"@
    ||| e == ".jpeg"@
    ||| e == ".gif"@
    ||| e == ".svg"@
    ||| e == ".webp"@
}

/// If the last dot of `s` sits at `i`, the extension is the suffix from `i`.
proof fn lemma_ext_at_last_dot(s: Seq<char>, i: int)
    requires
        0 <= i < s.len(),
        s[i] == '.',
        forall|j: int| i < j < s.len() ==> s[j] != '.',
    ensures
        ext_from_last_dot(s) == Some(s.subrange(i, s.len() as int)),
    decreases s.len(),
{
    if i == s.len() - 1 {
        assert(s.subrange(i, s.len() as int) =~= seq!['.']);
    } else {
        let t = s.drop_last();
        lemma_ext_at_last_dot(t, i);
        assert(t.subrange(i, t.len() as int).push(s.last()) =~= s.subrange(i, s.len() as int));
    }
}

/// A string without a dot has no extension.
proof fn lemma_no_dot_no_ext(s: Seq<char>)
    requires
        forall|j: int| 0 <= j < s.len() ==> s[j] != '.',
    ensures
        ext_from_last_dot(s) is None,
    decreases s.len(),
{
    if s.len() > 0 {
        lemma_no_dot_no_ext(s.drop_last());
    }
}

/// Extracts the image format of a URL: the extension from its last dot,
/// accepted only when it is one of the supported formats.
pub fn parse_image_format(image_url: &String) -> (r: Option<String>)
    ensures
        r is Some <==> (ext_from_last_dot(image_url@) matches Some(e) && accepted_image_format(e)),
        r matches Some(f) ==> (ext_from_last_dot(image_url@) == Some(f@) && accepted_image_format(
            f@,
        )),
{
    let s = image_url.as_str();
    let n = s.unicode_len();
    let mut i: usize = n;
    while i > 0 && s.get_char(i - 1) != '.'
        invariant
            0 <= i <= n == s@.len(),
            forall|j: int| i <= j < n ==> s@[j] != '.',
        decreases i,
    {
        i = i - 1;
    }
    if i == 0 {
        proof {
            lemma_no_dot_no_ext(image_url@);
        }
        return None;
    }
    proof {
        lemma_ext_at_last_dot(image_url@, i - 1);
    }
    let ext = s.substring_char(i - 1, n);
    proof {
        assert(ext@ =~= image_url@.subrange(i - 1, n as int));
    }
    let accepted = eq_str(ext, ".png") || eq_str(ext, ".jpg") || eq_str(ext, ".jpeg") || eq_str(
        ext,
        ".gif",
    ) || eq_str(ext, ".svg") || eq_str(ext, ".webp");
    if accepted {
        Some(String::from_str(ext))
    } else {
        None
    }
}

/// The deterministic CDN identifier of an image:
/// `<image-type>/<symbol><extension>`. Re-ingesting the same symbol derives
/// the same identifier, which is what makes uploads idempotent.
pub open spec fn spec_image_id(ty: ImageType, ticker: Seq<char>, ext: Seq<char>) -> Seq<char> {
    ty.spec_str() + "/"@ + ticker + ext
}

pub fn image_id(ty: ImageType, ticker: &str, ext: &str) -> (r: String)
    ensures
        r@ == spec_image_id(ty, ticker@, ext@),
{
    let mut r = ty.to_string();
    r.append("/");
    r.append(ticker);
    r.append(ext);
    r
}

/// A source URL signed with the external source's access credential.
pub open spec fn spec_signed_url(url: Seq<char>, api_key: Seq<char>) -> Seq<char> {
    url + "?apiKey="@ + api_key
}

pub fn signed_source_url(url: &str, api_key: &str) -> (r: String)
    ensures
        r@ == spec_signed_url(url@, api_key@),
{
    let mut r = String::from_str(url);
    r.append("?apiKey=");
    r.append(api_key);
    r
}

/// The public delivery URL of an image uploaded under `image_id`,
/// synthesized from the deterministic identifier alone.
pub open spec fn spec_public_variant_url(image_id: Seq<char>) -> Seq<char> {
    "https://imagedelivery.net/2TmEWA4hLHH8IZk5hCKYgg/"@ + image_id + "/public"@
}

pub fn public_variant_url(image_id: &str) -> (r: String)
    ensures
        r@ == spec_public_variant_url(image_id@),
{
    let mut r = String::from_str("https://imagedelivery.net/2TmEWA4hLHH8IZk5hCKYgg/");
    r.append(image_id);
    r.append("/public");
    r
}

/// One error in a CDN reply: the provider's numeric code and its message.
pub struct CdnError {
    pub code: i64,
    pub message: String,
}

/// The payload of a successful CDN upload: the delivery variants.
pub struct CdnUploadResult {
    pub variants: Vec<String>,
}

/// What the CDN answered to an upload, freed of any client types.
pub struct CdnUploadResponse {
    pub success: bool,
    pub result: Option<CdnUploadResult>,
    pub errors: Vec<CdnError>,
}

impl CdnUploadResponse {
    /// The first delivery variant of a successful reply, if any.
    pub open spec fn spec_first_variant(&self) -> Option<Seq<char>> {
        match self.result {
            Some(res) => if res.variants.len() > 0 {
                Some(res.variants[0]@)
            } else {
                None
            },
            None => None,
        }
    }

    /// The code of the first reported error, if any.
    pub open spec fn spec_first_error_code(&self) -> Option<int> {
        if self.errors.len() > 0 {
            Some(self.errors[0].code as int)
        } else {
            None
        }
    }
}

/// The URL the pipeline takes from a CDN answer: the first variant of a
/// success; the synthesized public URL on an "already exists" conflict;
/// nothing on any other failure.
pub open spec fn spec_cdn_outcome(
    success: bool,
    first_variant: Option<Seq<char>>,
    first_error_code: Option<int>,
    image_id: Seq<char>,
) -> Option<Seq<char>> {
    if success {
        first_variant
    } else if first_error_code == Some(CDN_ALREADY_EXISTS_CODE as int) {
        Some(spec_public_variant_url(image_id))
    } else {
        None
    }
}

/// The "already exists" reconciliation: a conflict reply for an identifier
/// resolves to exactly the public URL that an original successful upload of
/// that identifier reports as its first variant.
pub proof fn lemma_conflict_matches_original_upload(image_id: Seq<char>)
    ensures
        spec_cdn_outcome(false, None, Some(CDN_ALREADY_EXISTS_CODE as int), image_id)
            == spec_cdn_outcome(true, Some(spec_public_variant_url(image_id)), None, image_id),
{
}

/// Judges the CDN's answer to an upload under `image_id`. A success hands
/// back its first variant; the "already exists" conflict counts as success
/// with the synthesized public URL; everything else is a third-party error
/// that is fatal to this image only.
pub fn interpret_cdn_response(response: &CdnUploadResponse, image_id: &str) -> (r: Result<
    String,
    Error,
>)
    ensures
        r is Ok <==> spec_cdn_outcome(
            response.success,
            response.spec_first_variant(),
            response.spec_first_error_code(),
            image_id@,
        ) is Some,
        r matches Ok(u) ==> Some(u@) == spec_cdn_outcome(
            response.success,
            response.spec_first_variant(),
            response.spec_first_error_code(),
            image_id@,
        ),
        r matches Err(e) ==> e.error_type == ErrorType::ThirdPartyError,
{
    if response.success {
        match &response.result {
            Some(res) => {
                if res.variants.len() > 0 {
                    Ok(res.variants[0].clone())
                } else {
                    Err(
                        Error::new(
                            ErrorType::ThirdPartyError,
                            String::from_str("Failed to upload image"),
                        ),
                    )
                }
            },
            None => Err(
                Error::new(ErrorType::ThirdPartyError, String::from_str("Failed to upload image")),
            ),
        }
    } else if response.errors.len() > 0 {
        let first = &response.errors[0];
        if first.code == CDN_ALREADY_EXISTS_CODE {
            Ok(public_variant_url(image_id))
        } else {
            Err(Error::new(ErrorType::ThirdPartyError, first.message.clone()))
        }
    } else {
        Err(Error::new(ErrorType::ThirdPartyError, String::from_str("Failed to upload image")))
    }
}

/// The branding image references an external record carries.
pub struct Branding {
    pub logo_url: Option<String>,
    pub icon_url: Option<String>,
}

/// The upload the pipeline plans for one image: the deterministic target
/// identifier and the signed source to pull from.
pub struct ImageUploadPlan {
    pub image_id: String,
    pub source_url: String,
}

/// The plan for one image URL: its identifier and signed source when the
/// URL carries an accepted format; nothing (skip this image) otherwise.
pub open spec fn spec_image_plan(
    ty: ImageType,
    url: Seq<char>,
    ticker: Seq<char>,
    api_key: Seq<char>,
) -> Option<(Seq<char>, Seq<char>)> {
    match ext_from_last_dot(url) {
        Some(e) => if accepted_image_format(e) {
            Some((spec_image_id(ty, ticker, e), spec_signed_url(url, api_key)))
        } else {
            None
        },
        None => None,
    }
}

/// Plans the upload of one image: derives the format from the URL, rejects
/// unsupported formats (skipping that image only), and builds the
/// deterministic identifier and the signed source URL.
pub fn plan_image_upload(ty: ImageType, url: &String, ticker: &str, api_key: &str) -> (r: Option<
    ImageUploadPlan,
>)
    ensures
        r is Some <==> spec_image_plan(ty, url@, ticker@, api_key@) is Some,
        r matches Some(p) ==> Some((p.image_id@, p.source_url@)) == spec_image_plan(
            ty,
            url@,
            ticker@,
            api_key@,
        ),
{
    match parse_image_format(url) {
        Some(format) => {
            let id = image_id(ty, ticker, format.as_str());
            let source = signed_source_url(url.as_str(), api_key);
            Some(ImageUploadPlan { image_id: id, source_url: source })
        },
        None => None,
    }
}

/// Plans the uploads for a record's branding: one optional plan per image,
/// each missing or unsupported image skipped independently of the other.
pub fn plan_branding_uploads(ticker: &str, branding: &Branding, api_key: &str) -> (r: (
    Option<ImageUploadPlan>,
    Option<ImageUploadPlan>,
))
    ensures
        r.0 is Some <==> (branding.icon_url matches Some(u) && spec_image_plan(
            ImageType::Icon,
            u@,
            ticker@,
            api_key@,
        ) is Some),
        r.0 matches Some(p) ==> (branding.icon_url matches Some(u) && Some(
            (p.image_id@, p.source_url@),
        ) == spec_image_plan(ImageType::Icon, u@, ticker@, api_key@)),
        r.1 is Some <==> (branding.logo_url matches Some(u) && spec_image_plan(
            ImageType::Logo,
            u@,
            ticker@,
            api_key@,
        ) is Some),
        r.1 matches Some(p) ==> (branding.logo_url matches Some(u) && Some(
            (p.image_id@, p.source_url@),
        ) == spec_image_plan(ImageType::Logo, u@, ticker@, api_key@)),
{
    let icon = match &branding.icon_url {
        Some(u) => plan_image_upload(ImageType::Icon, u, ticker, api_key),
        None => None,
    };
    let logo = match &branding.logo_url {
        Some(u) => plan_image_upload(ImageType::Logo, u, ticker, api_key),
        None => None,
    };
    (icon, logo)
}

/// Combines the per-image outcomes into the branding that is persisted:
/// each image that failed (or was never planned) is simply absent, and one
/// image's failure never touches the other.
pub fn apply_branding_outcomes(
    icon_outcome: Option<Result<String, Error>>,
    logo_outcome: Option<Result<String, Error>>,
) -> (r: Branding)
    ensures
        r.icon_url == match icon_outcome {
            Some(Ok(v)) => Some(v),
            _ => None::<String>,
        },
        r.logo_url == match logo_outcome {
            Some(Ok(v)) => Some(v),
            _ => None::<String>,
        },
{
    let icon_url = match icon_outcome {
        Some(Ok(u)) => Some(u),
        _ => None,
    };
    let logo_url = match logo_outcome {
        Some(Ok(u)) => Some(u),
        _ => None,
    };
    Branding { icon_url, logo_url }
}

} // verus!
