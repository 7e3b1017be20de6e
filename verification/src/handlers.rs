use vstd::prelude::*;

use crate::http::Method;
use crate::http::Response;
use crate::http::ServiceError;

verus! {

/// The greeting prefix `Hello World!!! ` as bytes; the index handler appends
/// the configured application name to it.
pub open spec fn greeting() -> Seq<u8> {
    seq![
        72u8, 101u8, 108u8, 108u8, 111u8, 32u8, 87u8, 111u8, 114u8, 108u8, 100u8, 33u8, 33u8,
        33u8, 32u8,
    ]
}

/// Appends the bytes of `src` to `dst`.
fn append_bytes(dst: &mut Vec<u8>, src: &Vec<u8>)
    ensures
        final(dst)@ == old(dst)@ + src@,
{
    let mut i: usize = 0;
    while i < src.len()
        invariant
            i <= src.len(),
            dst@ == old(dst)@ + src@.take(i as int),
        decreases src.len() - i,
    {
        dst.push(src[i]);
        proof {
            assert(old(dst)@ + src@.take(i as int) + seq![src@[i as int]] =~= old(dst)@
                + src@.take(i as int + 1));
        }
        i += 1;
    }
    proof {
        assert(src@.take(src@.len() as int) =~= src@);
    }
}

/// `GET /`: a greeting that interpolates the shared application name. Always
/// succeeds with status 200; reads shared state, mutates nothing.
pub fn index_handler(app_name: &Vec<u8>) -> (r: Response)
    ensures
        r@.0 == 200,
        r@.1 == greeting() + app_name@,
{
    let mut body: Vec<u8> = vec![
        72u8, 101u8, 108u8, 108u8, 111u8, 32u8, 87u8, 111u8, 114u8, 108u8, 100u8, 33u8, 33u8,
        33u8, 32u8,
    ];
    proof {
        assert(body@ =~= greeting());
    }
    append_bytes(&mut body, app_name);
    Response { status: 200, body }
}

/// `POST /echo`: returns the request body unchanged with status 200.
pub fn echo(req_body: Vec<u8>) -> (r: Response)
    ensures
        r@.0 == 200,
        r@.1 == req_body@,
{
    Response { status: 200, body: req_body }
}

/// `GET /favicon.ico`: serves the favicon asset with status 200, or fails
/// with `AssetNotFound` when the asset is missing on disk at request time.
/// The caller reads the asset and passes its bytes in.
pub fn favicon(asset: Option<Vec<u8>>) -> (r: Result<Response, ServiceError>)
    ensures
        asset is Some ==> (r matches Ok(resp) && resp@.0 == 200 && resp@.1 == asset->0@),
        asset is None ==> r == Err::<Response, ServiceError>(ServiceError::AssetNotFound),
{
    match asset {
        Some(bytes) => Ok(Response { status: 200, body: bytes }),
        None => Err(ServiceError::AssetNotFound),
    }
}

/// The fallback for unmatched routes. For GET it serves the static not-found
/// document with status 404 (or fails with `AssetNotFound` when the document
/// is missing); for every other method it returns an empty 405. It does not
/// distinguish a path registered under another method from an unknown path.
pub fn default_handler(req_method: Method, not_found_doc: Option<Vec<u8>>) -> (r: Result<
    Response,
    ServiceError,
>)
    ensures
        req_method == Method::Get && not_found_doc is Some ==> (r matches Ok(resp) && resp@.0
            == 404 && resp@.1 == not_found_doc->0@),
        req_method == Method::Get && not_found_doc is None ==> r == Err::<
            Response,
            ServiceError,
        >(ServiceError::AssetNotFound),
        req_method != Method::Get ==> (r matches Ok(resp) && resp@.0 == 405 && resp@.1
            == Seq::<u8>::empty()),
{
    match req_method {
        Method::Get => match not_found_doc {
            Some(doc) => Ok(Response { status: 404, body: doc }),
            None => Err(ServiceError::AssetNotFound),
        },
        _ => {
            let empty: Vec<u8> = Vec::new();
            Ok(Response { status: 405, body: empty })
        },
    }
}

} // verus!
