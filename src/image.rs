//! Image references: a bare image name is qualified with a tenant's
//! registry path, a reference that already holds a path is kept.
use vstd::prelude::*;

verus! {

/// The reference an image name stands for: kept when it already holds a
/// `/` or when no tenant is known, else placed under the tenant's
/// repository in the registry.
pub open spec fn qualified_image(image: Seq<char>, tenant: Option<Seq<char>>) -> Seq<char> {
    if image.contains('/') {
        image
    } else {
        match tenant {
            None => image,
            Some(t) => "us-central1-docker.pkg.dev/molten-verve-216720/"@ + t + "-repository/"@
                + image,
        }
    }
}

/// The view of an optional string slice.
pub open spec fn opt_str_view(o: Option<&str>) -> Option<Seq<char>> {
    match o {
        Some(s) => Some(s@),
        None => None,
    }
}

/// Whether `s` holds the character `c`.
pub fn contains_char(s: &str, c: char) -> (r: bool)
    ensures
        r == s@.contains(c),
{
    let n = s.unicode_len();
    let mut i: usize = 0;
    while i < n
        invariant
            n == s@.len(),
            i <= n,
            forall|j: int| 0 <= j < i ==> s@[j] != c,
        decreases n - i,
    {
        if s.get_char(i) == c {
            return true;
        }
        i += 1;
    }
    false
}

/// Qualifies an image name with the tenant's registry repository.
pub fn process_image(image: &str, tenant_name: Option<&str>) -> (r: String)
    ensures
        r@ == qualified_image(image@, opt_str_view(tenant_name)),
{
    if contains_char(image, '/') {
        String::from_str(image)
    } else {
        match tenant_name {
            None => String::from_str(image),
            Some(tenant) => {
                let mut r = String::from_str("us-central1-docker.pkg.dev/molten-verve-216720/");
                r.append(tenant);
                r.append("-repository/");
                r.append(image);
                r
            },
        }
    }
}

} // verus!
