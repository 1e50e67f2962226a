use vstd::prelude::*;
use vstd::string::StrSliceExecFns;

use crate::error::VitaError;

verus! {

/// The outcome of one capability invocation, judged once its provider
/// has answered: a rejected request is an authentication failure, a
/// non-empty batch is a success, and an empty one means the provider
/// legitimately had no data.
pub fn evaluate_batch(source: &str, host: &str, auth_rejected: bool, batch: Vec<String>) -> (r:
    Result<Vec<String>, VitaError>)
    ensures
        auth_rejected ==> (r matches Err(VitaError::AuthError(s)) && s@ == source@),
        !auth_rejected && batch@.len() > 0 ==> (r matches Ok(b) && b == batch),
        !auth_rejected && batch@.len() == 0 ==> (r matches Err(VitaError::SourceError(s, h)) && s@
            == source@ && h@ == host@),
{
    if auth_rejected {
        Err(VitaError::AuthError(source.to_owned()))
    } else if batch.len() > 0 {
        Ok(batch)
    } else {
        Err(VitaError::SourceError(source.to_owned(), host.to_owned()))
    }
}

/// Checks the credentials a source needs before it runs: either every
/// looked-up variable had a value, or the source must refuse to run,
/// naming all the variables it wanted.
pub fn check_creds(names: &Vec<String>, values: Vec<Option<String>>) -> (r: Result<
    Vec<String>,
    VitaError,
>)
    requires
        values@.len() == names@.len(),
    ensures
        r is Ok <==> (forall|i: int| 0 <= i < values@.len() ==> values@[i] is Some),
        r matches Ok(v) ==> v@.len() == values@.len() && (forall|i: int|
            0 <= i < v@.len() ==> v@[i] == values@[i]->0),
        r matches Err(e) ==> (e matches VitaError::UnsetKeys(m) && m@ == names@),
{
    let mut out: Vec<String> = Vec::new();
    let mut i: usize = 0;
    while i < values.len()
        invariant
            values@.len() == names@.len(),
            i <= values.len(),
            out@.len() == i,
            forall|k: int|
                0 <= k < i ==> (#[trigger] values@[k]) is Some && out@[k] == values@[k]->0,
        decreases values.len() - i,
    {
        match &values[i] {
            Some(v) => {
                proof {
                    assert(values@[i as int] is Some);
                }
                let item = v.clone();
                proof {
                    assert(item@ == values@[i as int]->0@);
                }
                out.push(item);
                proof {
                    assert(out@[i as int] == values@[i as int]->0);
                }
            },
            None => {
                let missing = names.clone();
                proof {
                    assert forall|k: int| 0 <= k < names@.len() implies missing@[k]
                        == names@[k] by {
                        assert(vstd::pervasive::cloned::<String>(names@[k], missing@[k]));
                    }
                    assert(missing@ =~= names@);
                    assert(!(values@[i as int] is Some));
                }
                return Err(VitaError::UnsetKeys(missing));
            },
        }
        i += 1;
    }
    Ok(out)
}

} // verus!
