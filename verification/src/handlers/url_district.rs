//! Routes that name the district in the URL: the district path parameter
//! becomes the `x-court-district` header of the request handed on.
use vstd::prelude::*;
use crate::error::{ApiError, is_bad_request, bad_request};
use crate::handlers::filing::header_model;
use crate::text::{eq_ignore_ascii_case, chars_of, chars_eq_ignore_ascii_case};
use vstd::string::StringSliceAdditionalSpecFns;

verus! {

/// Whether a header name is `x-court-district` (header names are compared
/// without regard to ASCII case).
pub open spec fn is_district_header(name: Seq<char>) -> bool {
    eq_ignore_ascii_case(name, "x-court-district"@)
}

/// The headers other than `x-court-district`, in order.
pub open spec fn drop_district(h: Seq<(Seq<char>, Seq<u8>)>) -> Seq<(Seq<char>, Seq<u8>)>
    decreases h.len(),
{
    if h.len() == 0 {
        seq![]
    } else {
        let rest = drop_district(h.drop_last());
        if is_district_header(h.last().0) {
            rest
        } else {
            rest.push(h.last())
        }
    }
}

/// The headers of the request handed on: the original headers, with any
/// `x-court-district` value replaced by the district from the path.
pub open spec fn with_district(h: Seq<(Seq<char>, Seq<u8>)>, district: &str) -> Seq<
    (Seq<char>, Seq<u8>),
> {
    drop_district(h).push(("x-court-district"@, district.spec_bytes()))
}

proof fn lemma_drop_district_clean(h: Seq<(Seq<char>, Seq<u8>)>)
    ensures
        forall|i: int|
            0 <= i < drop_district(h).len() ==> !is_district_header(#[trigger] drop_district(h)[i].0),
        drop_district(h).len() <= h.len(),
    decreases h.len(),
{
    if h.len() > 0 {
        lemma_drop_district_clean(h.drop_last());
    }
}

/// After the path's district is added, the request carries exactly one
/// `x-court-district` header, the last one, and its value is the district
/// from the path; at most that one header is added.
pub proof fn lemma_single_district_header(h: Seq<(Seq<char>, Seq<u8>)>, district: &str)
    ensures
        with_district(h, district).last() == ("x-court-district"@, district.spec_bytes()),
        forall|i: int|
            0 <= i < with_district(h, district).len() - 1 ==> !is_district_header(
                #[trigger] with_district(h, district)[i].0,
            ),
        with_district(h, district).len() <= h.len() + 1,
{
    lemma_drop_district_clean(h);
    let r = with_district(h, district);
    assert forall|i: int| 0 <= i < r.len() - 1 implies !is_district_header(#[trigger] r[i].0) by {
        assert(r[i] == drop_district(h)[i]);
    }
}

fn is_district_name(name: &String) -> (b: bool)
    ensures
        b == is_district_header(name@),
{
    let n = chars_of(name.as_str());
    let d = chars_of("x-court-district");
    chars_eq_ignore_ascii_case(&n, &d)
}

/// Gives the headers for a request whose district is named in the URL: the
/// `district` path parameter is required, and becomes the only
/// `x-court-district` header; the other headers are kept in order.
pub fn add_district_header(headers: Vec<(String, Vec<u8>)>, district: Option<&str>) -> (r: Result<
    Vec<(String, Vec<u8>)>,
    ApiError,
>)
    ensures
        district is None ==> (r matches Err(e) && is_bad_request(
            e,
            "District parameter is required in URL"@,
        )),
        district matches Some(d) ==> (r matches Ok(out) && header_model(out@) == with_district(
            header_model(headers@),
            d,
        )),
{
    let d = match district {
        None => {
            return Err(bad_request("District parameter is required in URL"));
        },
        Some(d) => d,
    };
    let ghost all = header_model(headers@);
    let mut rest = headers;
    let mut out: Vec<(String, Vec<u8>)> = Vec::new();
    let ghost mut done: Seq<(Seq<char>, Seq<u8>)> = seq![];
    while rest.len() > 0
        invariant
            header_model(out@) == drop_district(done),
            all == done + header_model(rest@),
        decreases rest.len(),
    {
        let ghost before = rest@;
        let entry = rest.remove(0);
        proof {
            assert(header_model(before) =~= seq![(entry.0@, entry.1@)] + header_model(rest@));
            assert(all == done.push((entry.0@, entry.1@)) + header_model(rest@));
            assert(done.push((entry.0@, entry.1@)).drop_last() =~= done);
        }
        if !is_district_name(&entry.0) {
            let ghost prev = out@;
            out.push(entry);
            proof {
                assert(header_model(out@) =~= header_model(prev).push(
                    (out@.last().0@, out@.last().1@),
                ));
            }
        }
        proof {
            done = done.push((entry.0@, entry.1@));
        }
    }
    proof {
        assert(done =~= all);
    }
    let ghost prev = out@;
    out.push((String::from_str("x-court-district"), d.as_bytes_vec()));
    proof {
        assert(header_model(out@) =~= header_model(prev).push(
            ("x-court-district"@, d.spec_bytes()),
        ));
    }
    Ok(out)
}

} // verus!
