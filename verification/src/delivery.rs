use vstd::prelude::*;
use vstd::string::*;
use crate::text::joined;

verus! {

/// The texts joined with `separator` between neighbours.
pub open spec fn join_texts(parts: Seq<Seq<char>>, separator: Seq<char>) -> Seq<char>
    decreases parts.len(),
{
    if parts.len() == 0 {
        Seq::empty()
    } else if parts.len() == 1 {
        parts[0]
    } else {
        join_texts(parts.drop_last(), separator) + separator + parts.last()
    }
}

/// The status lines of a delivery: the copy, then the save.
pub open spec fn delivery_status(copied: Option<Result<(), Seq<char>>>, saved: Option<Result<Seq<char>, Seq<char>>>) -> Seq<Seq<char>> {
    (if copied == Some(Ok::<(), Seq<char>>(())) { seq!["Copied to clipboard"@] } else { Seq::empty() })
        + match saved {
            Some(Ok(path)) => seq!["Saved to "@ + path],
            _ => Seq::empty(),
        }
}

/// The errors of a delivery: the copy's, the save's, then the cache's.
pub open spec fn delivery_errors(
    copied: Option<Result<(), Seq<char>>>,
    saved: Option<Result<Seq<char>, Seq<char>>>,
    stored: Option<Result<Seq<char>, Seq<char>>>,
) -> Seq<Seq<char>> {
    (match copied {
        Some(Err(e)) => seq![e],
        _ => Seq::empty(),
    }) + (match saved {
        Some(Err(e)) => seq![e],
        _ => Seq::empty(),
    }) + (match stored {
        Some(Err(e)) => seq![e],
        _ => Seq::empty(),
    })
}

/// What a finished capture reports once it was copied, saved and cached as
/// configured (each `None` when not asked for): the cache id and the status,
/// or every status and error joined when something failed.
pub open spec fn delivery_report(
    copied: Option<Result<(), Seq<char>>>,
    saved: Option<Result<Seq<char>, Seq<char>>>,
    stored: Option<Result<Seq<char>, Seq<char>>>,
) -> Result<(Option<Seq<char>>, Seq<char>), Seq<char>> {
    let status = delivery_status(copied, saved);
    let errors = delivery_errors(copied, saved, stored);
    if errors.len() == 0 {
        Ok(
            (
                match stored {
                    Some(Ok(id)) => Some(id),
                    _ => None,
                },
                if status.len() == 0 { "Screenshot captured"@ } else { join_texts(status, ". "@) },
            ),
        )
    } else {
        Err(join_texts(status + errors, ". "@))
    }
}

/// The texts of a unit result.
pub open spec fn unit_outcome(r: Option<Result<(), String>>) -> Option<Result<(), Seq<char>>> {
    match r {
        Some(Ok(())) => Some(Ok(())),
        Some(Err(e)) => Some(Err(e@)),
        None => None,
    }
}

/// The texts of a text result.
pub open spec fn text_outcome(r: Option<Result<String, String>>) -> Option<Result<Seq<char>, Seq<char>>> {
    match r {
        Some(Ok(t)) => Some(Ok(t@)),
        Some(Err(e)) => Some(Err(e@)),
        None => None,
    }
}

fn join_all(parts: &Vec<String>) -> (text: String)
    ensures
        text@ == join_texts(parts@.map_values(|p: String| p@), ". "@),
{
    let mut text = String::new();
    let mut i: usize = 0;
    while i < parts.len()
        invariant
            i <= parts@.len(),
            text@ == join_texts(parts@.take(i as int).map_values(|p: String| p@), ". "@),
        decreases parts@.len() - i,
    {
        let ghost before = parts@.take(i as int).map_values(|p: String| p@);
        if i > 0 {
            text.append(". ");
        }
        text.append(parts[i].as_str());
        proof {
            let after = parts@.take(i + 1).map_values(|p: String| p@);
            assert(after.drop_last() =~= before);
            if i == 0 {
                assert(before.len() == 0);
                assert(text@ =~= after[0]);
            }
        }
        i = i + 1;
    }
    proof {
        assert(parts@.take(i as int) =~= parts@);
    }
    text
}

/// Combines the outcomes of copying, saving (the saved path, as displayed) and
/// caching a finished capture into the status it reports.
pub fn delivery_outcome(
    copied: Option<Result<(), String>>,
    saved: Option<Result<String, String>>,
    stored: Option<Result<String, String>>,
) -> (report: Result<(Option<String>, String), String>)
    ensures
        match (report, delivery_report(unit_outcome(copied), text_outcome(saved), text_outcome(stored))) {
            (Ok((id, status)), Ok((eid, estatus))) => status@ == estatus && match (id, eid) {
                (Some(i), Some(e)) => i@ == e,
                (None, None) => true,
                _ => false,
            },
            (Err(message), Err(e)) => message@ == e,
            _ => false,
        },
{
    let mut status: Vec<String> = Vec::new();
    let mut errors: Vec<String> = Vec::new();
    let mut id: Option<String> = None;
    match copied {
        Some(Ok(())) => status.push(String::from_str("Copied to clipboard")),
        Some(Err(error)) => errors.push(error),
        None => {},
    }
    match saved {
        Some(Ok(path)) => status.push(joined("Saved to ", path.as_str())),
        Some(Err(error)) => errors.push(error),
        None => {},
    }
    match stored {
        Some(Ok(capture_id)) => id = Some(capture_id),
        Some(Err(error)) => errors.push(error),
        None => {},
    }
    let ghost status_view = status@.map_values(|p: String| p@);
    let ghost errors_view = errors@.map_values(|p: String| p@);
    proof {
        assert(status_view =~= delivery_status(unit_outcome(copied), text_outcome(saved)));
        assert(errors_view =~= delivery_errors(unit_outcome(copied), text_outcome(saved), text_outcome(stored)));
    }
    if errors.len() == 0 {
        let text = if status.len() == 0 {
            String::from_str("Screenshot captured")
        } else {
            join_all(&status)
        };
        Ok((id, text))
    } else {
        let mut all = status;
        let mut rest = errors;
        all.append(&mut rest);
        proof {
            assert(all@.map_values(|p: String| p@) =~= status_view + errors_view);
        }
        Err(join_all(&all))
    }
}

/// Whether copying or saving failed.
pub open spec fn copy_or_save_failed(
    copied: Option<Result<(), Seq<char>>>,
    saved: Option<Result<Seq<char>, Seq<char>>>,
) -> bool {
    (copied matches Some(Err(_))) || (saved matches Some(Err(_)))
}

/// When nothing failed, the report carries the cache id exactly when the
/// capture was cached under it, whatever was copied or saved; when something
/// failed, it is an error.
pub proof fn lemma_cached_id_is_reported(
    copied: Option<Result<(), Seq<char>>>,
    saved: Option<Result<Seq<char>, Seq<char>>>,
    stored: Option<Result<Seq<char>, Seq<char>>>,
    id: Seq<char>,
)
    ensures
        !copy_or_save_failed(copied, saved) ==> (delivery_report(copied, saved, Some(Ok(id))) matches Ok(
            (Some(i), _),
        ) && i == id),
        !copy_or_save_failed(copied, saved) ==> (delivery_report(copied, saved, None) matches Ok((None, _))),
        copy_or_save_failed(copied, saved) || (stored matches Some(Err(_))) ==> delivery_report(
            copied,
            saved,
            stored,
        ) is Err,
{
    if copy_or_save_failed(copied, saved) || (stored matches Some(Err(_))) {
        assert(delivery_errors(copied, saved, stored).len() > 0);
    }
    if !copy_or_save_failed(copied, saved) {
        assert(delivery_errors(copied, saved, Some(Ok(id))) =~= Seq::<Seq<char>>::empty());
        assert(delivery_errors(copied, saved, None) =~= Seq::<Seq<char>>::empty());
    }
}

} // verus!
