use vstd::prelude::*;

verus! {

/// Largest request body, in bytes, that the application accepts.
pub const MAX_BODY_BYTES: usize = 96 * 1024;

/// The response headers added to every response, by name and value.
pub open spec fn security_header_table() -> Seq<(Seq<char>, Seq<char>)> {
    seq![
        (
            "Content-Security-Policy"@,
            "default-src 'none'; base-uri 'none'; form-action 'none'; frame-ancestors 'none'"@,
        ),
        ("X-Content-Type-Options"@, "nosniff"@),
        ("Referrer-Policy"@, "no-referrer"@),
        ("X-Frame-Options"@, "DENY"@),
        ("Server"@, "nginx/1.29.4"@),
        ("Permissions-Policy"@, "geolocation=(), microphone=(), camera=()"@),
    ]
}

/// The fixed security headers, in the order they are set.
pub fn security_headers() -> (r: Vec<(&'static str, &'static str)>)
    ensures
        r@.len() == security_header_table().len(),
        forall|i: int|
            0 <= i < r@.len() ==> (#[trigger] r@[i]).0@ == security_header_table()[i].0
                && r@[i].1@ == security_header_table()[i].1,
{
    let r = vec![
        (
            "Content-Security-Policy",
            "default-src 'none'; base-uri 'none'; form-action 'none'; frame-ancestors 'none'",
        ),
        ("X-Content-Type-Options", "nosniff"),
        ("Referrer-Policy", "no-referrer"),
        ("X-Frame-Options", "DENY"),
        ("Server", "nginx/1.29.4"),
        ("Permissions-Policy", "geolocation=(), microphone=(), camera=()"),
    ];
    proof {
        reveal_strlit("Content-Security-Policy");
        reveal_strlit(
            "default-src 'none'; base-uri 'none'; form-action 'none'; frame-ancestors 'none'",
        );
        reveal_strlit("X-Content-Type-Options");
        reveal_strlit("nosniff");
        reveal_strlit("Referrer-Policy");
        reveal_strlit("no-referrer");
        reveal_strlit("X-Frame-Options");
        reveal_strlit("DENY");
        reveal_strlit("Server");
        reveal_strlit("nginx/1.29.4");
        reveal_strlit("Permissions-Policy");
        reveal_strlit("geolocation=(), microphone=(), camera=()");
    }
    r
}

} // verus!
