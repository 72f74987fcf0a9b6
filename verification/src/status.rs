//! The closed set of daily Tempo tariff categories.

use vstd::prelude::*;
use vstd::string::StrSliceExecFns;

use crate::error::TempoError;

verus! {

/// A day's tariff category. `NonDefini` marks a status the provider has not
/// published yet; it is never stored in the cache.
#[derive(Clone, Copy, Debug, PartialEq, Eq, Structural)]
pub enum TempoStatus {
    TempoBleu,
    TempoRouge,
    TempoBlanc,
    NonDefini,
}

impl TempoStatus {
    /// A status is concrete when the provider has actually published it.
    pub open spec fn is_concrete(self) -> bool {
        self != TempoStatus::NonDefini
    }
}

/// What reading a provider status literal yields: the four published
/// spellings map to their statuses, anything else is a parse failure.
pub open spec fn spec_parse_status(s: Seq<char>) -> Result<TempoStatus, TempoError> {
    if s == "TEMPO_BLEU"@ {
        Ok(TempoStatus::TempoBleu)
    } else if s == "TEMPO_ROUGE"@ {
        Ok(TempoStatus::TempoRouge)
    } else if s == "TEMPO_BLANC"@ {
        Ok(TempoStatus::TempoBlanc)
    } else if s == "NON_DEFINI"@ {
        Ok(TempoStatus::NonDefini)
    } else {
        Err(TempoError::UpstreamParseError)
    }
}

/// Reads one of the provider's status literals. An unknown literal is a hard
/// parse failure, never a silent default.
pub fn parse_status_literal(s: &str) -> (r: Result<TempoStatus, TempoError>)
    ensures
        r == spec_parse_status(s@),
{
    proof {
        reveal_strlit("TEMPO_BLEU");
        reveal_strlit("TEMPO_ROUGE");
        reveal_strlit("TEMPO_BLANC");
        reveal_strlit("NON_DEFINI");
    }
    let n = s.unicode_len();
    if n == 10 {
        if s.get_char(0) == 'T' && s.get_char(1) == 'E' && s.get_char(2) == 'M' && s.get_char(3)
            == 'P' && s.get_char(4) == 'O' && s.get_char(5) == '_' && s.get_char(6) == 'B'
            && s.get_char(7) == 'L' && s.get_char(8) == 'E' && s.get_char(9) == 'U' {
            proof {
                assert(s@ =~= "TEMPO_BLEU"@);
            }
            return Ok(TempoStatus::TempoBleu);
        }
        if s.get_char(0) == 'N' && s.get_char(1) == 'O' && s.get_char(2) == 'N' && s.get_char(3)
            == '_' && s.get_char(4) == 'D' && s.get_char(5) == 'E' && s.get_char(6) == 'F'
            && s.get_char(7) == 'I' && s.get_char(8) == 'N' && s.get_char(9) == 'I' {
            proof {
                assert(s@ =~= "NON_DEFINI"@);
            }
            return Ok(TempoStatus::NonDefini);
        }
    } else if n == 11 {
        if s.get_char(0) == 'T' && s.get_char(1) == 'E' && s.get_char(2) == 'M' && s.get_char(3)
            == 'P' && s.get_char(4) == 'O' && s.get_char(5) == '_' && s.get_char(6) == 'R'
            && s.get_char(7) == 'O' && s.get_char(8) == 'U' && s.get_char(9) == 'G' && s.get_char(
            10,
        ) == 'E' {
            proof {
                assert(s@ =~= "TEMPO_ROUGE"@);
            }
            return Ok(TempoStatus::TempoRouge);
        }
        if s.get_char(0) == 'T' && s.get_char(1) == 'E' && s.get_char(2) == 'M' && s.get_char(3)
            == 'P' && s.get_char(4) == 'O' && s.get_char(5) == '_' && s.get_char(6) == 'B'
            && s.get_char(7) == 'L' && s.get_char(8) == 'A' && s.get_char(9) == 'N' && s.get_char(
            10,
        ) == 'C' {
            proof {
                assert(s@ =~= "TEMPO_BLANC"@);
            }
            return Ok(TempoStatus::TempoBlanc);
        }
    }
    Err(TempoError::UpstreamParseError)
}

/// The provider's spelling of a status, the inverse of
/// [`spec_parse_status`] on the four published literals.
pub fn status_literal(status: &TempoStatus) -> (r: &'static str)
    ensures
        spec_parse_status(r@) == Ok::<TempoStatus, TempoError>(*status),
{
    proof {
        reveal_strlit("TEMPO_BLEU");
        reveal_strlit("TEMPO_ROUGE");
        reveal_strlit("TEMPO_BLANC");
        reveal_strlit("NON_DEFINI");
    }
    match status {
        TempoStatus::TempoBleu => "TEMPO_BLEU",
        TempoStatus::TempoRouge => {
            proof {
                assert("TEMPO_ROUGE"@.len() == 11 && "TEMPO_BLEU"@.len() == 10);
            }
            "TEMPO_ROUGE"
        },
        TempoStatus::TempoBlanc => {
            proof {
                assert("TEMPO_BLANC"@.len() == 11 && "TEMPO_BLEU"@.len() == 10);
                assert("TEMPO_BLANC"@[6] == 'B' && "TEMPO_ROUGE"@[6] == 'R');
            }
            "TEMPO_BLANC"
        },
        TempoStatus::NonDefini => {
            proof {
                assert("NON_DEFINI"@.len() == 10 && "NON_DEFINI"@[0] == 'N');
                assert("TEMPO_BLEU"@[0] == 'T');
            }
            "NON_DEFINI"
        },
    }
}

} // verus!
