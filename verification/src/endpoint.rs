//! Endpoints under observation, and the parsing of `address,label`
//! descriptions into them.

use vstd::prelude::*;

verus! {

/// Mathematical model of an endpoint: its address and label as character
/// sequences.
pub struct EndpointView {
    pub address: Seq<char>,
    pub label: Seq<char>,
}

/// One monitored endpoint: a host, IP or URL, and the human-readable name of
/// the application behind it. Fixed for the lifetime of the process.
#[derive(Debug)]
pub struct Endpoint {
    pub address: String,
    pub label: String,
}

impl View for Endpoint {
    type V = EndpointView;

    open spec fn view(&self) -> EndpointView {
        EndpointView { address: self.address@, label: self.label@ }
    }
}

impl Clone for Endpoint {
    fn clone(&self) -> (r: Self)
        ensures
            r@ == self@,
    {
        Endpoint { address: self.address.clone(), label: self.label.clone() }
    }
}

/// How many commas `s` holds.
pub open spec fn comma_count(s: Seq<char>) -> nat
    decreases s.len(),
{
    if s.len() == 0 {
        0
    } else {
        comma_count(s.drop_last()) + (if s.last() == ',' {
            1nat
        } else {
            0nat
        })
    }
}

/// Position of the first comma of `s` (`s.len()` when there is none).
pub open spec fn first_comma(s: Seq<char>) -> int
    decreases s.len(),
{
    if s.len() == 0 {
        0
    } else if s[0] == ',' {
        0
    } else {
        1 + first_comma(s.drop_first())
    }
}

/// The error text reported for a malformed `address,label` description.
pub open spec fn pair_error_message(s: Seq<char>) -> Seq<char> {
    "Invalid server-app pair format: '"@ + s + "'. Expected 'server,app'"@
}

/// A comma at position `k` with none before it is the first comma.
proof fn lemma_first_comma_at(s: Seq<char>, k: int)
    requires
        0 <= k < s.len(),
        s[k] == ',',
        forall|j: int| 0 <= j < k ==> s[j] != ',',
    ensures
        first_comma(s) == k,
    decreases k,
{
    if k > 0 {
        assert forall|j: int| 0 <= j < k - 1 implies s.drop_first()[j] != ',' by {
            assert(s.drop_first()[j] == s[j + 1]);
        }
        assert(s.drop_first()[k - 1] == s[k]);
        lemma_first_comma_at(s.drop_first(), k - 1);
    }
}

/// Splits an `address,label` description at its single comma. Exactly one
/// comma yields the endpoint; any other number of commas is rejected with a
/// message that echoes the offending input.
pub fn parse_server_app_pair(s: &str) -> (r: Result<Endpoint, String>)
    ensures
        match r {
            Ok(e) => comma_count(s@) == 1 && e@.address == s@.subrange(0, first_comma(s@))
                && e@.label == s@.subrange(first_comma(s@) + 1, s@.len() as int),
            Err(m) => comma_count(s@) != 1 && m@ == pair_error_message(s@),
        },
{
    let n = s.unicode_len();
    let mut i: usize = 0;
    let mut count: usize = 0;
    let mut first: usize = 0;
    let mut found = false;
    while i < n
        invariant
            i <= n,
            n == s@.len(),
            count <= i,
            count == comma_count(s@.take(i as int)),
            found <==> count > 0,
            found ==> first < i && s@[first as int] == ',' && (forall|j: int|
                0 <= j < first ==> s@[j] != ','),
            !found ==> forall|j: int| 0 <= j < i ==> s@[j] != ',',
        decreases n - i,
    {
        let c = s.get_char(i);
        proof {
            assert(s@.take(i + 1).drop_last() =~= s@.take(i as int));
        }
        if c == ',' {
            if !found {
                first = i;
                found = true;
            }
            count += 1;
        }
        i += 1;
    }
    proof {
        assert(s@.take(n as int) =~= s@);
    }
    if count == 1 {
        proof {
            lemma_first_comma_at(s@, first as int);
        }
        let address = s.substring_char(0, first).to_owned();
        let label = s.substring_char(first + 1, n).to_owned();
        Ok(Endpoint { address, label })
    } else {
        Err(
            String::from_str("Invalid server-app pair format: '").concat(s).concat(
                "'. Expected 'server,app'",
            ),
        )
    }
}

/// The built-in endpoint list used when none is configured.
pub fn default_endpoints() -> (r: Vec<Endpoint>)
    ensures
        r@.len() == 4,
        r@[0]@.address == "chat.com"@,
        r@[0]@.label == "Chat Application"@,
        r@[1]@.address == "192.4.5.11"@,
        r@[1]@.label == "Example App"@,
        r@[2]@.address == "https://jsonplaceholder.typicode.com/todos/1"@,
        r@[2]@.label == "REST Api Example"@,
        r@[3]@.address == "https://dns.google"@,
        r@[3]@.label == "Google DNS Service"@,
{
    let mut r: Vec<Endpoint> = Vec::new();
    r.push(
        Endpoint {
            address: String::from_str("chat.com"),
            label: String::from_str("Chat Application"),
        },
    );
    r.push(
        Endpoint {
            address: String::from_str("192.4.5.11"),
            label: String::from_str("Example App"),
        },
    );
    r.push(
        Endpoint {
            address: String::from_str("https://jsonplaceholder.typicode.com/todos/1"),
            label: String::from_str("REST Api Example"),
        },
    );
    r.push(
        Endpoint {
            address: String::from_str("https://dns.google"),
            label: String::from_str("Google DNS Service"),
        },
    );
    r
}

} // verus!
