//! The router: from a request method and the path, already split into
//! segments, to the dispatch decision, including the decimal id a todo
//! route carries in its path.

use vstd::prelude::*;

verus! {

/// The request method, as far as the routes distinguish it.
#[derive(Clone, Copy, Debug, PartialEq, Eq, Structural)]
pub enum Method {
    Get,
    Post,
    Put,
    Delete,
    Other,
}

/// The dispatch decision for one request.
#[derive(Clone, Copy, Debug, PartialEq, Eq, Structural)]
pub enum Route {
    Health,
    ListTodos,
    CreateTodo,
    UpdateTodo(u64),
    DeleteTodo(u64),
    NotFound,
    MethodNotAllowed,
}

/// A non-empty, all-decimal-digit character sequence.
pub open spec fn is_digits(s: Seq<char>) -> bool {
    &&& s.len() > 0
    &&& forall|i: int| 0 <= i < s.len() ==> 48 <= #[trigger] (s[i] as int) <= 57
}

/// The value of a digit sequence read in base ten; 0 when empty.
pub open spec fn dec_value(s: Seq<char>) -> int
    decreases s.len(),
{
    if s.len() == 0 {
        0
    } else {
        dec_value(s.drop_last()) * 10 + (s.last() as int - 48)
    }
}

proof fn lemma_dec_value_nonneg(s: Seq<char>)
    requires
        forall|i: int| 0 <= i < s.len() ==> 48 <= #[trigger] (s[i] as int) <= 57,
    ensures
        dec_value(s) >= 0,
    decreases s.len(),
{
    if s.len() > 0 {
        lemma_dec_value_nonneg(s.drop_last());
    }
}

/// Reading more digits never shrinks the value: the value of a prefix is a
/// lower bound for the value of the whole sequence.
proof fn lemma_dec_value_prefix_le(s: Seq<char>, j: int)
    requires
        forall|i: int| 0 <= i < s.len() ==> 48 <= #[trigger] (s[i] as int) <= 57,
        0 <= j <= s.len(),
    ensures
        dec_value(s.subrange(0, j)) <= dec_value(s),
    decreases s.len() - j,
{
    if j == s.len() {
        assert(s.subrange(0, j) =~= s);
    } else {
        lemma_dec_value_prefix_le(s, j + 1);
        let p = s.subrange(0, j);
        let p1 = s.subrange(0, j + 1);
        assert(p1.drop_last() =~= p);
        assert(p1.last() == s[j]);
        lemma_dec_value_nonneg(p);
        assert(dec_value(p1) == dec_value(p) * 10 + (s[j] as int - 48));
        assert(dec_value(p) <= dec_value(p) * 10 + (s[j] as int - 48));
    }
}

/// Parses a decimal id, exactly as a path parameter accepts it: all digits,
/// at least one, and a value that fits. Anything else is turned away.
pub fn parse_u64(s: &str) -> (r: Option<u64>)
    ensures
        match r {
            Some(v) => is_digits(s@) && dec_value(s@) == v as int,
            None => !(is_digits(s@) && dec_value(s@) <= u64::MAX),
        },
{
    let len = s.unicode_len();
    if len == 0 {
        return None;
    }
    let mut acc: u64 = 0;
    let mut i: usize = 0;
    while i < len
        invariant
            len == s@.len(),
            0 < len,
            i <= len,
            forall|k: int| 0 <= k < i ==> 48 <= #[trigger] (s@[k] as int) <= 57,
            acc as int == dec_value(s@.subrange(0, i as int)),
        decreases len - i,
    {
        let c = s.get_char(i);
        let cv = c as u32;
        if cv < 48 || cv > 57 {
            return None;
        }
        let d = (cv - 48) as u64;
        if acc > (u64::MAX - d) / 10 {
            proof {
                let q = ((u64::MAX - d) / 10) as int;
                assert((u64::MAX - d) as int == q * 10 + ((u64::MAX - d) as int % 10));
                assert(acc as int * 10 + d as int > u64::MAX as int);
                if is_digits(s@) && dec_value(s@) <= u64::MAX {
                    let p1 = s@.subrange(0, i as int + 1);
                    assert(p1.drop_last() =~= s@.subrange(0, i as int));
                    assert(p1.last() == s@[i as int]);
                    assert(dec_value(p1) == acc as int * 10 + d as int);
                    lemma_dec_value_prefix_le(s@, i as int + 1);
                    assert(false);
                }
            }
            return None;
        }
        proof {
            let p1 = s@.subrange(0, i as int + 1);
            assert(p1.drop_last() =~= s@.subrange(0, i as int));
            assert(p1.last() == s@[i as int]);
        }
        acc = acc * 10 + d;
        i += 1;
    }
    proof {
        assert(s@.subrange(0, len as int) =~= s@);
    }
    Some(acc)
}

/// Where a method and a split path are dispatched: the health check, the
/// todo collection, or one todo by id; a path that matches no route gives
/// `NotFound`, a known path under the wrong method `MethodNotAllowed`.
pub open spec fn spec_route(m: Method, segs: Seq<Seq<char>>) -> Route {
    if segs.len() == 1 && segs[0] == "health"@ {
        match m {
            Method::Get => Route::Health,
            _ => Route::MethodNotAllowed,
        }
    } else if segs.len() == 1 && segs[0] == "todo"@ {
        match m {
            Method::Get => Route::ListTodos,
            Method::Post => Route::CreateTodo,
            _ => Route::MethodNotAllowed,
        }
    } else if segs.len() == 2 && segs[0] == "todo"@ && is_digits(segs[1]) && dec_value(segs[1])
        <= u64::MAX {
        match m {
            Method::Put => Route::UpdateTodo(dec_value(segs[1]) as u64),
            Method::Delete => Route::DeleteTodo(dec_value(segs[1]) as u64),
            _ => Route::MethodNotAllowed,
        }
    } else {
        Route::NotFound
    }
}

/// Dispatches a request: the verified counterpart of the route tree.
pub fn route(method: &Method, segments: &Vec<String>) -> (r: Route)
    ensures
        r == spec_route(*method, segments.deep_view()),
{
    proof {
        assert forall|i: int| 0 <= i < segments@.len() implies #[trigger] segments.deep_view()[i]
            == segments@[i]@ by {
        }
    }
    if segments.len() == 1 {
        let health: String = "health".to_owned();
        let todo: String = "todo".to_owned();
        if segments[0].eq(&health) {
            return match method {
                Method::Get => Route::Health,
                _ => Route::MethodNotAllowed,
            };
        }
        if segments[0].eq(&todo) {
            return match method {
                Method::Get => Route::ListTodos,
                Method::Post => Route::CreateTodo,
                _ => Route::MethodNotAllowed,
            };
        }
        return Route::NotFound;
    }
    if segments.len() == 2 {
        let todo: String = "todo".to_owned();
        if segments[0].eq(&todo) {
            if let Some(id) = parse_u64(segments[1].as_str()) {
                return match method {
                    Method::Put => Route::UpdateTodo(id),
                    Method::Delete => Route::DeleteTodo(id),
                    _ => Route::MethodNotAllowed,
                };
            }
            return Route::NotFound;
        }
        return Route::NotFound;
    }
    Route::NotFound
}

} // verus!
