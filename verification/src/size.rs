use vstd::prelude::*;

use crate::text::{chars_eq, chars_of};

verus! {

/// The canonical (feminine) name of a creature size; `None` for a size that
/// is not known.
pub open spec fn spec_normalize_size(s: Seq<char>) -> Option<Seq<char>> {
    if s == "Piccolissimo"@ || s == "Piccolissima"@ {
        Some("Piccolissima"@)
    } else if s == "Minuto"@ || s == "Minuta"@ {
        Some("Minuta"@)
    } else if s == "Minuscolo"@ || s == "Minuscola"@ {
        Some("Minuscola"@)
    } else if s == "Piccolo"@ || s == "Piccola"@ {
        Some("Piccola"@)
    } else if s == "Medio"@ || s == "Media"@ {
        Some("Media"@)
    } else if s == "Grande"@ {
        Some("Grande"@)
    } else if s == "Grande (Mole Demoniaca)"@ {
        Some("Grande (Mole Demoniaca)"@)
    } else if s == "Enorme"@ {
        Some("Enorme"@)
    } else if s == "Mastodontico"@ || s == "Mastodontica"@ {
        Some("Mastodontica"@)
    } else if s == "Colossale"@ {
        Some("Colossale"@)
    } else {
        None
    }
}

/// `normalize_size`, or `None` for a size that is not known.
pub fn try_normalize_size(field: &str) -> (r: Option<&'static str>)
    ensures
        match spec_normalize_size(field@) {
            None => r is None,
            Some(v) => r matches Some(x) && x@ == v,
        },
{
    let f = chars_of(field);
    if chars_eq(f.as_slice(), "Piccolissimo") || chars_eq(f.as_slice(), "Piccolissima") {
        return Some("Piccolissima");
    }
    if chars_eq(f.as_slice(), "Minuto") || chars_eq(f.as_slice(), "Minuta") {
        return Some("Minuta");
    }
    if chars_eq(f.as_slice(), "Minuscolo") || chars_eq(f.as_slice(), "Minuscola") {
        return Some("Minuscola");
    }
    if chars_eq(f.as_slice(), "Piccolo") || chars_eq(f.as_slice(), "Piccola") {
        return Some("Piccola");
    }
    if chars_eq(f.as_slice(), "Medio") || chars_eq(f.as_slice(), "Media") {
        return Some("Media");
    }
    if chars_eq(f.as_slice(), "Grande") {
        return Some("Grande");
    }
    if chars_eq(f.as_slice(), "Grande (Mole Demoniaca)") {
        return Some("Grande (Mole Demoniaca)");
    }
    if chars_eq(f.as_slice(), "Enorme") {
        return Some("Enorme");
    }
    if chars_eq(f.as_slice(), "Mastodontico") || chars_eq(f.as_slice(), "Mastodontica") {
        return Some("Mastodontica");
    }
    if chars_eq(f.as_slice(), "Colossale") {
        return Some("Colossale");
    }
    None
}

/// The canonical (feminine) name of a creature size.
pub fn normalize_size<'a>(field: &'a str, page: &str) -> (r: &'a str)
    requires
        spec_normalize_size(field@) is Some,
    ensures
        r@ == spec_normalize_size(field@)->0,
{
    match try_normalize_size(field) {
        Some(v) => v,
        None => field,
    }
}


/// A canonical size name is its own canonical name.
pub proof fn lemma_normalize_size_idempotent(s: Seq<char>)
    requires
        spec_normalize_size(s) is Some,
    ensures
        spec_normalize_size(spec_normalize_size(s)->0) == spec_normalize_size(s),
{
    reveal_strlit("Piccolissimo");
    reveal_strlit("Piccolissima");
    reveal_strlit("Minuto");
    reveal_strlit("Minuta");
    reveal_strlit("Minuscolo");
    reveal_strlit("Minuscola");
    reveal_strlit("Piccolo");
    reveal_strlit("Piccola");
    reveal_strlit("Medio");
    reveal_strlit("Media");
    reveal_strlit("Grande");
    reveal_strlit("Grande (Mole Demoniaca)");
    reveal_strlit("Enorme");
    reveal_strlit("Mastodontico");
    reveal_strlit("Mastodontica");
    reveal_strlit("Colossale");
    assert("Piccolissimo"@.len() == 12);
    assert("Piccolissima"@.len() == 12);
    assert("Minuto"@.len() == 6);
    assert("Minuta"@.len() == 6);
    assert("Minuscolo"@.len() == 9);
    assert("Minuscola"@.len() == 9);
    assert("Piccolo"@.len() == 7);
    assert("Piccola"@.len() == 7);
    assert("Medio"@.len() == 5);
    assert("Media"@.len() == 5);
    assert("Grande"@.len() == 6);
    assert("Grande (Mole Demoniaca)"@.len() == 23);
    assert("Enorme"@.len() == 6);
    assert("Mastodontico"@.len() == 12);
    assert("Mastodontica"@.len() == 12);
    assert("Colossale"@.len() == 9);
    assert("Piccolissima"@[11] != "Piccolissimo"@[11]);
    assert("Minuta"@[5] != "Minuto"@[5]);
    assert("Minuscola"@[8] != "Minuscolo"@[8]);
    assert("Piccola"@[6] != "Piccolo"@[6]);
    assert("Media"@[4] != "Medio"@[4]);
    assert("Grande"@[0] != "Minuto"@[0]);
    assert("Grande"@[0] != "Minuta"@[0]);
    assert("Enorme"@[0] != "Minuto"@[0]);
    assert("Enorme"@[0] != "Minuta"@[0]);
    assert("Enorme"@[0] != "Grande"@[0]);
    assert("Mastodontica"@[0] != "Piccolissimo"@[0]);
    assert("Mastodontica"@[0] != "Piccolissima"@[0]);
    assert("Mastodontica"@[11] != "Mastodontico"@[11]);
    assert("Colossale"@[0] != "Minuscolo"@[0]);
    assert("Colossale"@[0] != "Minuscola"@[0]);
}

/// The canonical name of a size is its feminine form: a name ending in `o`
/// (masculine) becomes the same name ending in `a`, and any other known name
/// is already canonical.
pub proof fn lemma_normalize_size_feminine(s: Seq<char>)
    requires
        spec_normalize_size(s) is Some,
    ensures
        s.len() > 0,
        s.last() == 'o' ==> spec_normalize_size(s)->0 == s.drop_last().push('a'),
        s.last() != 'o' ==> spec_normalize_size(s)->0 == s,
{
    reveal_strlit("Piccolissimo");
    reveal_strlit("Piccolissima");
    reveal_strlit("Minuto");
    reveal_strlit("Minuta");
    reveal_strlit("Minuscolo");
    reveal_strlit("Minuscola");
    reveal_strlit("Piccolo");
    reveal_strlit("Piccola");
    reveal_strlit("Medio");
    reveal_strlit("Media");
    reveal_strlit("Mastodontico");
    reveal_strlit("Mastodontica");
    reveal_strlit("Grande");
    reveal_strlit("Grande (Mole Demoniaca)");
    reveal_strlit("Enorme");
    reveal_strlit("Colossale");
}

/// A masculine size name is known exactly when its feminine form is, and
/// both have the same canonical name.
pub proof fn lemma_normalize_size_genders(m: Seq<char>)
    requires
        m.len() > 0,
        m.last() == 'o',
    ensures
        ({
            let f = m.drop_last().push('a');
            &&& spec_normalize_size(m) is Some <==> spec_normalize_size(f) is Some
            &&& spec_normalize_size(m) is Some ==> spec_normalize_size(m) == spec_normalize_size(f)
        }),
{
    reveal_strlit("Piccolissimo");
    reveal_strlit("Piccolissima");
    reveal_strlit("Minuto");
    reveal_strlit("Minuta");
    reveal_strlit("Minuscolo");
    reveal_strlit("Minuscola");
    reveal_strlit("Piccolo");
    reveal_strlit("Piccola");
    reveal_strlit("Medio");
    reveal_strlit("Media");
    reveal_strlit("Mastodontico");
    reveal_strlit("Mastodontica");
    reveal_strlit("Grande");
    reveal_strlit("Grande (Mole Demoniaca)");
    reveal_strlit("Enorme");
    reveal_strlit("Colossale");
    assert("Piccolissimo"@.last() == 'o');
    assert("Piccolissima"@.last() == 'a');
    assert("Minuto"@.last() == 'o');
    assert("Minuta"@.last() == 'a');
    assert("Minuscolo"@.last() == 'o');
    assert("Minuscola"@.last() == 'a');
    assert("Piccolo"@.last() == 'o');
    assert("Piccola"@.last() == 'a');
    assert("Medio"@.last() == 'o');
    assert("Media"@.last() == 'a');
    assert("Mastodontico"@.last() == 'o');
    assert("Mastodontica"@.last() == 'a');
    assert("Grande"@.last() == 'e');
    assert("Grande (Mole Demoniaca)"@.last() == ')');
    assert("Enorme"@.last() == 'e');
    assert("Colossale"@.last() == 'e');
    let f = m.drop_last().push('a');
    assert(f.last() == 'a');
    if spec_normalize_size(m) is Some {
        assert(m =~= "Piccolissimo"@ || m =~= "Minuto"@ || m =~= "Minuscolo"@ || m =~= "Piccolo"@ || m =~= "Medio"@ || m =~= "Mastodontico"@);
    }
    if spec_normalize_size(f) is Some {
        assert(f =~= "Piccolissima"@ || f =~= "Minuta"@ || f =~= "Minuscola"@ || f =~= "Piccola"@ || f =~= "Media"@ || f =~= "Mastodontica"@);
    }
    assert(m =~= m.drop_last().push('o'));
    assert(f.drop_last() =~= m.drop_last());
    if m =~= "Piccolissimo"@ {
        assert(f =~= "Piccolissima"@);
    }
    if m =~= "Minuto"@ {
        assert(f =~= "Minuta"@);
    }
    if m =~= "Minuscolo"@ {
        assert(f =~= "Minuscola"@);
    }
    if m =~= "Piccolo"@ {
        assert(f =~= "Piccola"@);
    }
    if m =~= "Medio"@ {
        assert(f =~= "Media"@);
    }
    if m =~= "Mastodontico"@ {
        assert(f =~= "Mastodontica"@);
    }
    if f =~= "Piccolissima"@ {
        assert(m.drop_last() =~= "Piccolissima"@.drop_last());
        assert("Piccolissimo"@ =~= "Piccolissima"@.drop_last().push('o'));
        assert(m =~= "Piccolissimo"@);
    }
    if f =~= "Minuta"@ {
        assert(m.drop_last() =~= "Minuta"@.drop_last());
        assert("Minuto"@ =~= "Minuta"@.drop_last().push('o'));
        assert(m =~= "Minuto"@);
    }
    if f =~= "Minuscola"@ {
        assert(m.drop_last() =~= "Minuscola"@.drop_last());
        assert("Minuscolo"@ =~= "Minuscola"@.drop_last().push('o'));
        assert(m =~= "Minuscolo"@);
    }
    if f =~= "Piccola"@ {
        assert(m.drop_last() =~= "Piccola"@.drop_last());
        assert("Piccolo"@ =~= "Piccola"@.drop_last().push('o'));
        assert(m =~= "Piccolo"@);
    }
    if f =~= "Media"@ {
        assert(m.drop_last() =~= "Media"@.drop_last());
        assert("Medio"@ =~= "Media"@.drop_last().push('o'));
        assert(m =~= "Medio"@);
    }
    if f =~= "Mastodontica"@ {
        assert(m.drop_last() =~= "Mastodontica"@.drop_last());
        assert("Mastodontico"@ =~= "Mastodontica"@.drop_last().push('o'));
        assert(m =~= "Mastodontico"@);
    }
}

} // verus!
