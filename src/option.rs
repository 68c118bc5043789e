use vstd::prelude::*;

use crate::text::same_text;

verus! {

/// One parsed `OPTION` payload.
#[derive(Debug, PartialEq)]
pub enum PinentryOption {
    FormattedPassphrase,
    FormattedPassphraseHint(String),
    TtyType(String),
    TtYName(String),
    LccType(String),
    DefaultOk(String),
    DefaultCancel(String),
    DefaultPrompt(String),
    AllowExternalPasswordCache,
    UnknownOption,
}

/// Mathematical model of a `PinentryOption`: its values as character sequences.
pub enum OptionModel {
    FormattedPassphrase,
    FormattedPassphraseHint(Seq<char>),
    TtyType(Seq<char>),
    TtYName(Seq<char>),
    LccType(Seq<char>),
    DefaultOk(Seq<char>),
    DefaultCancel(Seq<char>),
    DefaultPrompt(Seq<char>),
    AllowExternalPasswordCache,
    UnknownOption,
}

impl View for PinentryOption {
    type V = OptionModel;

    open spec fn view(&self) -> OptionModel {
        match self {
            PinentryOption::FormattedPassphrase => OptionModel::FormattedPassphrase,
            PinentryOption::FormattedPassphraseHint(v) => OptionModel::FormattedPassphraseHint(v@),
            PinentryOption::TtyType(v) => OptionModel::TtyType(v@),
            PinentryOption::TtYName(v) => OptionModel::TtYName(v@),
            PinentryOption::LccType(v) => OptionModel::LccType(v@),
            PinentryOption::DefaultOk(v) => OptionModel::DefaultOk(v@),
            PinentryOption::DefaultCancel(v) => OptionModel::DefaultCancel(v@),
            PinentryOption::DefaultPrompt(v) => OptionModel::DefaultPrompt(v@),
            PinentryOption::AllowExternalPasswordCache => OptionModel::AllowExternalPasswordCache,
            PinentryOption::UnknownOption => OptionModel::UnknownOption,
        }
    }
}

/// Position of the first `=` in `s`, or its length where there is none.
pub open spec fn first_eq(s: Seq<char>) -> nat
    decreases s.len(),
{
    if s.len() == 0 || s[0] == '=' {
        0
    } else {
        1 + first_eq(s.drop_first())
    }
}

/// The key of an option token: all of it before the first `=`.
pub open spec fn option_key(s: Seq<char>) -> Seq<char> {
    s.take(first_eq(s) as int)
}

/// The value of an option token: all of it after the first `=`, empty where there is none.
pub open spec fn option_value(s: Seq<char>) -> Seq<char> {
    if first_eq(s) < s.len() {
        s.skip(first_eq(s) + 1int)
    } else {
        seq![]
    }
}

/// The option that the token `s` denotes.
pub open spec fn option_of(s: Seq<char>) -> OptionModel {
    let k = option_key(s);
    let v = option_value(s);
    if k == "formatted-passphrase"@ {
        OptionModel::FormattedPassphrase
    } else if k == "formatted-passphrase-hint"@ {
        OptionModel::FormattedPassphraseHint(v)
    } else if k == "ttytype"@ {
        OptionModel::TtyType(v)
    } else if k == "ttyname"@ {
        OptionModel::TtYName(v)
    } else if k == "lc-ctype"@ {
        OptionModel::LccType(v)
    } else if k == "default-ok"@ {
        OptionModel::DefaultOk(v)
    } else if k == "default-cancel"@ {
        OptionModel::DefaultCancel(v)
    } else if k == "default-prompt"@ {
        OptionModel::DefaultPrompt(v)
    } else if k == "allow-external-password-cache"@ {
        OptionModel::AllowExternalPasswordCache
    } else {
        OptionModel::UnknownOption
    }
}

proof fn lemma_first_eq_exact(s: Seq<char>, m: int)
    requires
        0 <= m <= s.len(),
        forall|k: int| 0 <= k < m ==> #[trigger] s[k] != '=',
        m == s.len() || s[m] == '=',
    ensures
        first_eq(s) == m,
    decreases m,
{
    if m > 0 {
        lemma_first_eq_exact(s.drop_first(), m - 1);
    }
}

impl PinentryOption {
    /// Parses a `KEY[=VALUE]` token; never fails.
    pub fn parse(input: &str) -> (r: PinentryOption)
        ensures
            r@ == option_of(input@),
    {
        let n = input.unicode_len();
        let mut i: usize = 0;
        while i < n && input.get_char(i) != '='
            invariant
                i <= n,
                n == input@.len(),
                forall|k: int| 0 <= k < i ==> #[trigger] input@[k] != '=',
            decreases n - i,
        {
            i = i + 1;
        }
        proof {
            lemma_first_eq_exact(input@, i as int);
        }
        let key = input.substring_char(0, i);
        let value = if i < n {
            input.substring_char(i + 1, n)
        } else {
            ""
        };
        proof {
            reveal_strlit("");
            assert(key@ =~= option_key(input@));
            assert(value@ =~= option_value(input@));
        }
        if same_text(key, "formatted-passphrase") {
            PinentryOption::FormattedPassphrase
        } else if same_text(key, "formatted-passphrase-hint") {
            PinentryOption::FormattedPassphraseHint(String::from_str(value))
        } else if same_text(key, "ttytype") {
            PinentryOption::TtyType(String::from_str(value))
        } else if same_text(key, "ttyname") {
            PinentryOption::TtYName(String::from_str(value))
        } else if same_text(key, "lc-ctype") {
            PinentryOption::LccType(String::from_str(value))
        } else if same_text(key, "default-ok") {
            PinentryOption::DefaultOk(String::from_str(value))
        } else if same_text(key, "default-cancel") {
            PinentryOption::DefaultCancel(String::from_str(value))
        } else if same_text(key, "default-prompt") {
            PinentryOption::DefaultPrompt(String::from_str(value))
        } else if same_text(key, "allow-external-password-cache") {
            PinentryOption::AllowExternalPasswordCache
        } else {
            PinentryOption::UnknownOption
        }
    }
}

} // verus!
