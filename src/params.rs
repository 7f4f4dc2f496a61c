//! The parameters of an experiment launch, as an ordered list of
//! key/value pairs.
use vstd::prelude::*;
use crate::image::{process_image, qualified_image};
use crate::text::{join_with, joined, strings_view};

verus! {

/// What a launch is made of, once the command line has been read.
pub struct ExperimentSettings {
    /// Test duration in minutes, passed on as written.
    pub duration: String,
    pub description: String,
    pub config_image: String,
    /// Comma-separated email addresses.
    pub recipients: String,
    pub images: Vec<String>,
    pub tenant_name: Option<String>,
}

pub open spec fn key_config_image() -> Seq<char> {
    "antithesis.config_image"@
}

pub open spec fn key_description() -> Seq<char> {
    "antithesis.description"@
}

pub open spec fn key_duration() -> Seq<char> {
    "antithesis.duration"@
}

pub open spec fn key_images() -> Seq<char> {
    "antithesis.images"@
}

pub open spec fn key_recipients() -> Seq<char> {
    "antithesis.report.recipients"@
}

/// The view of an optional string.
pub open spec fn opt_string_view(o: Option<String>) -> Option<Seq<char>> {
    match o {
        Some(s) => Some(s@),
        None => None,
    }
}

/// The views of a list of key/value pairs.
pub open spec fn pairs_view(v: Seq<(String, String)>) -> Seq<(Seq<char>, Seq<char>)> {
    v.map_values(|p: (String, String)| (p.0@, p.1@))
}

/// Each image qualified with the tenant.
pub open spec fn qualified_images(images: Seq<Seq<char>>, tenant: Option<Seq<char>>) -> Seq<
    Seq<char>,
> {
    images.map_values(|i: Seq<char>| qualified_image(i, tenant))
}

/// The parameters of a launch, keys in ascending order: the images entry
/// stands only where at least one image was given, and holds the qualified
/// images joined by `;`.
pub open spec fn experiment_params(s: ExperimentSettings) -> Seq<(Seq<char>, Seq<char>)> {
    let tenant = opt_string_view(s.tenant_name);
    let head = seq![
        (key_config_image(), qualified_image(s.config_image@, tenant)),
        (key_description(), s.description@),
        (key_duration(), s.duration@),
    ];
    let with_images = if s.images@.len() > 0 {
        head.push(
            (key_images(), joined(qualified_images(strings_view(s.images@), tenant), ";"@)),
        )
    } else {
        head
    };
    with_images.push((key_recipients(), s.recipients@))
}

/// The keys of a list of parameters.
pub open spec fn param_keys(p: Seq<(Seq<char>, Seq<char>)>) -> Seq<Seq<char>> {
    p.map_values(|e: (Seq<char>, Seq<char>)| e.0)
}

/// The parameters of any launch hold each of their keys once; the keys are
/// those of the duration, description, config image and recipients, and
/// that of the images exactly when at least one image was given.
pub proof fn lemma_param_keys(s: ExperimentSettings)
    ensures
        param_keys(experiment_params(s)).no_duplicates(),
        forall|k: Seq<char>|
            param_keys(experiment_params(s)).contains(k) <==> (k == key_duration() || k
                == key_description() || k == key_config_image() || k == key_recipients() || (
            s.images@.len() > 0 && k == key_images())),
{
    reveal_strlit("antithesis.config_image");
    reveal_strlit("antithesis.description");
    reveal_strlit("antithesis.duration");
    reveal_strlit("antithesis.images");
    reveal_strlit("antithesis.report.recipients");
    let ks = param_keys(experiment_params(s));
    // The keys differ at their twelfth character, or (the two that start
    // with "antithesis.d") at their thirteenth.
    assert(key_config_image()[11] != key_description()[11]);
    assert(key_description()[12] != key_duration()[12]);
    assert(key_duration()[11] != key_images()[11]);
    assert(key_images()[11] != key_recipients()[11]);
    assert(key_config_image()[11] != key_images()[11]);
    assert(key_config_image()[11] != key_recipients()[11]);
    assert(key_description()[11] != key_images()[11]);
    assert(key_description()[11] != key_recipients()[11]);
    assert(key_duration()[11] != key_recipients()[11]);
    assert(key_config_image()[11] != key_duration()[11]);
    if s.images@.len() > 0 {
        assert(ks =~= seq![
            key_config_image(),
            key_description(),
            key_duration(),
            key_images(),
            key_recipients(),
        ]);
    } else {
        assert(ks =~= seq![
            key_config_image(),
            key_description(),
            key_duration(),
            key_recipients(),
        ]);
    }
    assert forall|k: Seq<char>|
        ks.contains(k) <==> (k == key_duration() || k == key_description() || k
            == key_config_image() || k == key_recipients() || (s.images@.len() > 0 && k
            == key_images())) by {
        if k == key_duration() {
            assert(ks[2] == k);
        }
        if k == key_description() {
            assert(ks[1] == k);
        }
        if k == key_config_image() {
            assert(ks[0] == k);
        }
        if k == key_recipients() {
            assert(ks[ks.len() - 1] == k);
        }
        if s.images@.len() > 0 && k == key_images() {
            assert(ks[3] == k);
        }
    }
}

fn tenant_str(tenant_name: &Option<String>) -> (r: Option<&str>)
    ensures
        crate::image::opt_str_view(r) == opt_string_view(*tenant_name),
{
    match tenant_name {
        Some(t) => Some(t.as_str()),
        None => None,
    }
}

/// Qualifies each image with the tenant.
pub fn process_images(images: &Vec<String>, tenant_name: Option<&str>) -> (r: Vec<String>)
    ensures
        strings_view(r@) == qualified_images(
            strings_view(images@),
            crate::image::opt_str_view(tenant_name),
        ),
{
    let ghost tenant = crate::image::opt_str_view(tenant_name);
    let mut r: Vec<String> = Vec::new();
    let n = images.len();
    let mut i: usize = 0;
    while i < n
        invariant
            n == images@.len(),
            i <= n,
            tenant == crate::image::opt_str_view(tenant_name),
            strings_view(r@) =~= qualified_images(strings_view(images@.take(i as int)), tenant),
        decreases n - i,
    {
        let q = process_image(images[i].as_str(), tenant_name);
        let ghost before = r@;
        r.push(q);
        proof {
            assert(images@.take(i + 1) =~= images@.take(i as int).push(images@[i as int]));
            assert(r@ =~= before.push(q));
            assert(strings_view(r@) =~= strings_view(before).push(q@));
            assert(strings_view(images@.take(i + 1)) =~= strings_view(images@.take(i as int)).push(
                images@[i as int]@,
            ));
        }
        i += 1;
    }
    assert(images@.take(n as int) =~= images@);
    r
}

/// Joins image references with `;`.
pub fn join_images(images: &Vec<String>) -> (r: String)
    ensures
        r@ == joined(strings_view(images@), ";"@),
{
    join_with(images, ";")
}

/// Assembles the parameters of a launch.
pub fn build_params(s: &ExperimentSettings) -> (r: Vec<(String, String)>)
    ensures
        pairs_view(r@) == experiment_params(*s),
{
    let tenant = tenant_str(&s.tenant_name);
    let mut r: Vec<(String, String)> = Vec::new();
    r.push(
        (
            String::from_str("antithesis.config_image"),
            process_image(s.config_image.as_str(), tenant),
        ),
    );
    r.push((String::from_str("antithesis.description"), s.description.clone()));
    r.push((String::from_str("antithesis.duration"), s.duration.clone()));
    if s.images.len() > 0 {
        let qualified = process_images(&s.images, tenant);
        r.push((String::from_str("antithesis.images"), join_images(&qualified)));
    }
    r.push((String::from_str("antithesis.report.recipients"), s.recipients.clone()));
    assert(pairs_view(r@) =~= experiment_params(*s));
    r
}

} // verus!
