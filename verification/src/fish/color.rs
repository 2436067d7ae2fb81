//! `fish_color_*` and `fish_pager_color_*` variables.
use vstd::prelude::*;
use crate::base::{Config, RenderContext};
use crate::fish::util::{quote_fish, quote_fish_value};
use crate::text::owned;

verus! {

/// Identifies a `fish_color_*` / `fish_pager_color_*` variable.
#[derive(Debug, Clone, Copy, PartialEq, Eq, Structural)]
pub enum FishColorVar {
    Normal,
    Command,
    Keyword,
    Quote,
    Redirection,
    EndOfCommand,
    Error,
    Param,
    Option,
    Comment,
    Selection,
    Operator,
    Escape,
    Autosuggestion,
    MatchingParens,
    HistoryCurrent,
    SearchMatch,
    ValidPath,
    Cancel,
    // Pager colors
    PagerProgress,
    PagerBackground,
    PagerSecondaryBackground,
    PagerSelectedBackground,
    PagerPrefix,
    PagerCompletion,
    PagerDescription,
    PagerSecondaryPrefix,
    PagerSecondaryCompletion,
    PagerSecondaryDescription,
    PagerSelectedPrefix,
    PagerSelectedCompletion,
    PagerSelectedDescription,
}

impl FishColorVar {
    pub open spec fn spec_var_name(self) -> Seq<char> {
        match self {
            FishColorVar::Normal => "fish_color_normal"@,
            FishColorVar::Command => "fish_color_command"@,
            FishColorVar::Keyword => "fish_color_keyword"@,
            FishColorVar::Quote => "fish_color_quote"@,
            FishColorVar::Redirection => "fish_color_redirection"@,
            FishColorVar::EndOfCommand => "fish_color_end"@,
            FishColorVar::Error => "fish_color_error"@,
            FishColorVar::Param => "fish_color_param"@,
            FishColorVar::Option => "fish_color_option"@,
            FishColorVar::Comment => "fish_color_comment"@,
            FishColorVar::Selection => "fish_color_selection"@,
            FishColorVar::Operator => "fish_color_operator"@,
            FishColorVar::Escape => "fish_color_escape"@,
            FishColorVar::Autosuggestion => "fish_color_autosuggestion"@,
            FishColorVar::MatchingParens => "fish_color_matching_paren"@,
            FishColorVar::HistoryCurrent => "fish_color_history_current"@,
            FishColorVar::SearchMatch => "fish_color_search_match"@,
            FishColorVar::ValidPath => "fish_color_valid_path"@,
            FishColorVar::Cancel => "fish_color_cancel"@,
            FishColorVar::PagerProgress => "fish_pager_color_progress"@,
            FishColorVar::PagerBackground => "fish_pager_color_background"@,
            FishColorVar::PagerSecondaryBackground => "fish_pager_color_secondary_background"@,
            FishColorVar::PagerSelectedBackground => "fish_pager_color_selected_background"@,
            FishColorVar::PagerPrefix => "fish_pager_color_prefix"@,
            FishColorVar::PagerCompletion => "fish_pager_color_completion"@,
            FishColorVar::PagerDescription => "fish_pager_color_description"@,
            FishColorVar::PagerSecondaryPrefix => "fish_pager_color_secondary_prefix"@,
            FishColorVar::PagerSecondaryCompletion => "fish_pager_color_secondary_completion"@,
            FishColorVar::PagerSecondaryDescription => "fish_pager_color_secondary_description"@,
            FishColorVar::PagerSelectedPrefix => "fish_pager_color_selected_prefix"@,
            FishColorVar::PagerSelectedCompletion => "fish_pager_color_selected_completion"@,
            FishColorVar::PagerSelectedDescription => "fish_pager_color_selected_description"@,
        }
    }

    pub fn var_name(self) -> (r: &'static str)
        ensures
            r@ == self.spec_var_name(),
    {
        match self {
            FishColorVar::Normal => "fish_color_normal",
            FishColorVar::Command => "fish_color_command",
            FishColorVar::Keyword => "fish_color_keyword",
            FishColorVar::Quote => "fish_color_quote",
            FishColorVar::Redirection => "fish_color_redirection",
            FishColorVar::EndOfCommand => "fish_color_end",
            FishColorVar::Error => "fish_color_error",
            FishColorVar::Param => "fish_color_param",
            FishColorVar::Option => "fish_color_option",
            FishColorVar::Comment => "fish_color_comment",
            FishColorVar::Selection => "fish_color_selection",
            FishColorVar::Operator => "fish_color_operator",
            FishColorVar::Escape => "fish_color_escape",
            FishColorVar::Autosuggestion => "fish_color_autosuggestion",
            FishColorVar::MatchingParens => "fish_color_matching_paren",
            FishColorVar::HistoryCurrent => "fish_color_history_current",
            FishColorVar::SearchMatch => "fish_color_search_match",
            FishColorVar::ValidPath => "fish_color_valid_path",
            FishColorVar::Cancel => "fish_color_cancel",
            FishColorVar::PagerProgress => "fish_pager_color_progress",
            FishColorVar::PagerBackground => "fish_pager_color_background",
            FishColorVar::PagerSecondaryBackground => "fish_pager_color_secondary_background",
            FishColorVar::PagerSelectedBackground => "fish_pager_color_selected_background",
            FishColorVar::PagerPrefix => "fish_pager_color_prefix",
            FishColorVar::PagerCompletion => "fish_pager_color_completion",
            FishColorVar::PagerDescription => "fish_pager_color_description",
            FishColorVar::PagerSecondaryPrefix => "fish_pager_color_secondary_prefix",
            FishColorVar::PagerSecondaryCompletion => "fish_pager_color_secondary_completion",
            FishColorVar::PagerSecondaryDescription => "fish_pager_color_secondary_description",
            FishColorVar::PagerSelectedPrefix => "fish_pager_color_selected_prefix",
            FishColorVar::PagerSelectedCompletion => "fish_pager_color_selected_completion",
            FishColorVar::PagerSelectedDescription => "fish_pager_color_selected_description",
        }
    }
}

impl FishColorVar {
    /// Whether this is one of the pager colors.
    pub open spec fn is_pager(self) -> bool {
        match self {
            FishColorVar::PagerProgress | FishColorVar::PagerBackground | FishColorVar::PagerSecondaryBackground | FishColorVar::PagerSelectedBackground | FishColorVar::PagerPrefix | FishColorVar::PagerCompletion | FishColorVar::PagerDescription | FishColorVar::PagerSecondaryPrefix | FishColorVar::PagerSecondaryCompletion | FishColorVar::PagerSecondaryDescription | FishColorVar::PagerSelectedPrefix | FishColorVar::PagerSelectedCompletion | FishColorVar::PagerSelectedDescription => true,
            _ => false,
        }
    }
}

/// The variable whose name is `name`, if any.
pub open spec fn color_var_of(name: Seq<char>) -> Option<FishColorVar> {
    if false {
        None
    } else if name == "fish_color_normal"@ {
        Some(FishColorVar::Normal)
    } else if name == "fish_color_command"@ {
        Some(FishColorVar::Command)
    } else if name == "fish_color_keyword"@ {
        Some(FishColorVar::Keyword)
    } else if name == "fish_color_quote"@ {
        Some(FishColorVar::Quote)
    } else if name == "fish_color_redirection"@ {
        Some(FishColorVar::Redirection)
    } else if name == "fish_color_end"@ {
        Some(FishColorVar::EndOfCommand)
    } else if name == "fish_color_error"@ {
        Some(FishColorVar::Error)
    } else if name == "fish_color_param"@ {
        Some(FishColorVar::Param)
    } else if name == "fish_color_option"@ {
        Some(FishColorVar::Option)
    } else if name == "fish_color_comment"@ {
        Some(FishColorVar::Comment)
    } else if name == "fish_color_selection"@ {
        Some(FishColorVar::Selection)
    } else if name == "fish_color_operator"@ {
        Some(FishColorVar::Operator)
    } else if name == "fish_color_escape"@ {
        Some(FishColorVar::Escape)
    } else if name == "fish_color_autosuggestion"@ {
        Some(FishColorVar::Autosuggestion)
    } else if name == "fish_color_matching_paren"@ {
        Some(FishColorVar::MatchingParens)
    } else if name == "fish_color_history_current"@ {
        Some(FishColorVar::HistoryCurrent)
    } else if name == "fish_color_search_match"@ {
        Some(FishColorVar::SearchMatch)
    } else if name == "fish_color_valid_path"@ {
        Some(FishColorVar::ValidPath)
    } else if name == "fish_color_cancel"@ {
        Some(FishColorVar::Cancel)
    } else if name == "fish_pager_color_progress"@ {
        Some(FishColorVar::PagerProgress)
    } else if name == "fish_pager_color_background"@ {
        Some(FishColorVar::PagerBackground)
    } else if name == "fish_pager_color_secondary_background"@ {
        Some(FishColorVar::PagerSecondaryBackground)
    } else if name == "fish_pager_color_selected_background"@ {
        Some(FishColorVar::PagerSelectedBackground)
    } else if name == "fish_pager_color_prefix"@ {
        Some(FishColorVar::PagerPrefix)
    } else if name == "fish_pager_color_completion"@ {
        Some(FishColorVar::PagerCompletion)
    } else if name == "fish_pager_color_description"@ {
        Some(FishColorVar::PagerDescription)
    } else if name == "fish_pager_color_secondary_prefix"@ {
        Some(FishColorVar::PagerSecondaryPrefix)
    } else if name == "fish_pager_color_secondary_completion"@ {
        Some(FishColorVar::PagerSecondaryCompletion)
    } else if name == "fish_pager_color_secondary_description"@ {
        Some(FishColorVar::PagerSecondaryDescription)
    } else if name == "fish_pager_color_selected_prefix"@ {
        Some(FishColorVar::PagerSelectedPrefix)
    } else if name == "fish_pager_color_selected_completion"@ {
        Some(FishColorVar::PagerSelectedCompletion)
    } else if name == "fish_pager_color_selected_description"@ {
        Some(FishColorVar::PagerSelectedDescription)
    } else {
        None
    }
}

/// Each variable is found again from its name.
#[verifier::rlimit(60)]
proof fn lemma_name_decodes(v: FishColorVar)
    ensures
        color_var_of(v.spec_var_name()) == Some(v),
{
    match v {
        FishColorVar::Normal => {
            assert(color_var_of("fish_color_normal"@) == Some(FishColorVar::Normal)) by {
                reveal_strlit("fish_color_normal");
                assert("fish_color_normal"@.len() == 17);
            }
        },
        FishColorVar::Command => {
            assert(color_var_of("fish_color_command"@) == Some(FishColorVar::Command)) by {
                reveal_strlit("fish_color_command");
                assert("fish_color_command"@.len() == 18);
                reveal_strlit("fish_color_normal");
                assert("fish_color_normal"@.len() == 17);
            }
        },
        FishColorVar::Keyword => {
            assert(color_var_of("fish_color_keyword"@) == Some(FishColorVar::Keyword)) by {
                reveal_strlit("fish_color_keyword");
                assert("fish_color_keyword"@.len() == 18);
                reveal_strlit("fish_color_normal");
                assert("fish_color_normal"@.len() == 17);
                reveal_strlit("fish_color_command");
                assert("fish_color_keyword"@[11] != "fish_color_command"@[11]);
            }
        },
        FishColorVar::Quote => {
            assert(color_var_of("fish_color_quote"@) == Some(FishColorVar::Quote)) by {
                reveal_strlit("fish_color_quote");
                assert("fish_color_quote"@.len() == 16);
                reveal_strlit("fish_color_normal");
                assert("fish_color_normal"@.len() == 17);
                reveal_strlit("fish_color_command");
                assert("fish_color_command"@.len() == 18);
                reveal_strlit("fish_color_keyword");
                assert("fish_color_keyword"@.len() == 18);
            }
        },
        FishColorVar::Redirection => {
            assert(color_var_of("fish_color_redirection"@) == Some(FishColorVar::Redirection)) by {
                reveal_strlit("fish_color_redirection");
                assert("fish_color_redirection"@.len() == 22);
                reveal_strlit("fish_color_normal");
                assert("fish_color_normal"@.len() == 17);
                reveal_strlit("fish_color_command");
                assert("fish_color_command"@.len() == 18);
                reveal_strlit("fish_color_keyword");
                assert("fish_color_keyword"@.len() == 18);
                reveal_strlit("fish_color_quote");
                assert("fish_color_quote"@.len() == 16);
            }
        },
        FishColorVar::EndOfCommand => {
            assert(color_var_of("fish_color_end"@) == Some(FishColorVar::EndOfCommand)) by {
                reveal_strlit("fish_color_end");
                assert("fish_color_end"@.len() == 14);
                reveal_strlit("fish_color_normal");
                assert("fish_color_normal"@.len() == 17);
                reveal_strlit("fish_color_command");
                assert("fish_color_command"@.len() == 18);
                reveal_strlit("fish_color_keyword");
                assert("fish_color_keyword"@.len() == 18);
                reveal_strlit("fish_color_quote");
                assert("fish_color_quote"@.len() == 16);
                reveal_strlit("fish_color_redirection");
                assert("fish_color_redirection"@.len() == 22);
            }
        },
        FishColorVar::Error => {
            assert(color_var_of("fish_color_error"@) == Some(FishColorVar::Error)) by {
                reveal_strlit("fish_color_error");
                assert("fish_color_error"@.len() == 16);
                reveal_strlit("fish_color_normal");
                assert("fish_color_normal"@.len() == 17);
                reveal_strlit("fish_color_command");
                assert("fish_color_command"@.len() == 18);
                reveal_strlit("fish_color_keyword");
                assert("fish_color_keyword"@.len() == 18);
                reveal_strlit("fish_color_quote");
                assert("fish_color_error"@[11] != "fish_color_quote"@[11]);
                reveal_strlit("fish_color_redirection");
                assert("fish_color_redirection"@.len() == 22);
                reveal_strlit("fish_color_end");
                assert("fish_color_end"@.len() == 14);
            }
        },
        FishColorVar::Param => {
            assert(color_var_of("fish_color_param"@) == Some(FishColorVar::Param)) by {
                reveal_strlit("fish_color_param");
                assert("fish_color_param"@.len() == 16);
                reveal_strlit("fish_color_normal");
                assert("fish_color_normal"@.len() == 17);
                reveal_strlit("fish_color_command");
                assert("fish_color_command"@.len() == 18);
                reveal_strlit("fish_color_keyword");
                assert("fish_color_keyword"@.len() == 18);
                reveal_strlit("fish_color_quote");
                assert("fish_color_param"@[11] != "fish_color_quote"@[11]);
                reveal_strlit("fish_color_redirection");
                assert("fish_color_redirection"@.len() == 22);
                reveal_strlit("fish_color_end");
                assert("fish_color_end"@.len() == 14);
                reveal_strlit("fish_color_error");
                assert("fish_color_param"@[11] != "fish_color_error"@[11]);
            }
        },
        FishColorVar::Option => {
            assert(color_var_of("fish_color_option"@) == Some(FishColorVar::Option)) by {
                reveal_strlit("fish_color_option");
                assert("fish_color_option"@.len() == 17);
                reveal_strlit("fish_color_normal");
                assert("fish_color_option"@[11] != "fish_color_normal"@[11]);
                reveal_strlit("fish_color_command");
                assert("fish_color_command"@.len() == 18);
                reveal_strlit("fish_color_keyword");
                assert("fish_color_keyword"@.len() == 18);
                reveal_strlit("fish_color_quote");
                assert("fish_color_quote"@.len() == 16);
                reveal_strlit("fish_color_redirection");
                assert("fish_color_redirection"@.len() == 22);
                reveal_strlit("fish_color_end");
                assert("fish_color_end"@.len() == 14);
                reveal_strlit("fish_color_error");
                assert("fish_color_error"@.len() == 16);
                reveal_strlit("fish_color_param");
                assert("fish_color_param"@.len() == 16);
            }
        },
        FishColorVar::Comment => {
            assert(color_var_of("fish_color_comment"@) == Some(FishColorVar::Comment)) by {
                reveal_strlit("fish_color_comment");
                assert("fish_color_comment"@.len() == 18);
                reveal_strlit("fish_color_normal");
                assert("fish_color_normal"@.len() == 17);
                reveal_strlit("fish_color_command");
                assert("fish_color_comment"@[15] != "fish_color_command"@[15]);
                reveal_strlit("fish_color_keyword");
                assert("fish_color_comment"@[11] != "fish_color_keyword"@[11]);
                reveal_strlit("fish_color_quote");
                assert("fish_color_quote"@.len() == 16);
                reveal_strlit("fish_color_redirection");
                assert("fish_color_redirection"@.len() == 22);
                reveal_strlit("fish_color_end");
                assert("fish_color_end"@.len() == 14);
                reveal_strlit("fish_color_error");
                assert("fish_color_error"@.len() == 16);
                reveal_strlit("fish_color_param");
                assert("fish_color_param"@.len() == 16);
                reveal_strlit("fish_color_option");
                assert("fish_color_option"@.len() == 17);
            }
        },
        FishColorVar::Selection => {
            assert(color_var_of("fish_color_selection"@) == Some(FishColorVar::Selection)) by {
                reveal_strlit("fish_color_selection");
                assert("fish_color_selection"@.len() == 20);
                reveal_strlit("fish_color_normal");
                assert("fish_color_normal"@.len() == 17);
                reveal_strlit("fish_color_command");
                assert("fish_color_command"@.len() == 18);
                reveal_strlit("fish_color_keyword");
                assert("fish_color_keyword"@.len() == 18);
                reveal_strlit("fish_color_quote");
                assert("fish_color_quote"@.len() == 16);
                reveal_strlit("fish_color_redirection");
                assert("fish_color_redirection"@.len() == 22);
                reveal_strlit("fish_color_end");
                assert("fish_color_end"@.len() == 14);
                reveal_strlit("fish_color_error");
                assert("fish_color_error"@.len() == 16);
                reveal_strlit("fish_color_param");
                assert("fish_color_param"@.len() == 16);
                reveal_strlit("fish_color_option");
                assert("fish_color_option"@.len() == 17);
                reveal_strlit("fish_color_comment");
                assert("fish_color_comment"@.len() == 18);
            }
        },
        FishColorVar::Operator => {
            assert(color_var_of("fish_color_operator"@) == Some(FishColorVar::Operator)) by {
                reveal_strlit("fish_color_operator");
                assert("fish_color_operator"@.len() == 19);
                reveal_strlit("fish_color_normal");
                assert("fish_color_normal"@.len() == 17);
                reveal_strlit("fish_color_command");
                assert("fish_color_command"@.len() == 18);
                reveal_strlit("fish_color_keyword");
                assert("fish_color_keyword"@.len() == 18);
                reveal_strlit("fish_color_quote");
                assert("fish_color_quote"@.len() == 16);
                reveal_strlit("fish_color_redirection");
                assert("fish_color_redirection"@.len() == 22);
                reveal_strlit("fish_color_end");
                assert("fish_color_end"@.len() == 14);
                reveal_strlit("fish_color_error");
                assert("fish_color_error"@.len() == 16);
                reveal_strlit("fish_color_param");
                assert("fish_color_param"@.len() == 16);
                reveal_strlit("fish_color_option");
                assert("fish_color_option"@.len() == 17);
                reveal_strlit("fish_color_comment");
                assert("fish_color_comment"@.len() == 18);
                reveal_strlit("fish_color_selection");
                assert("fish_color_selection"@.len() == 20);
            }
        },
        FishColorVar::Escape => {
            assert(color_var_of("fish_color_escape"@) == Some(FishColorVar::Escape)) by {
                reveal_strlit("fish_color_escape");
                assert("fish_color_escape"@.len() == 17);
                reveal_strlit("fish_color_normal");
                assert("fish_color_escape"@[11] != "fish_color_normal"@[11]);
                reveal_strlit("fish_color_command");
                assert("fish_color_command"@.len() == 18);
                reveal_strlit("fish_color_keyword");
                assert("fish_color_keyword"@.len() == 18);
                reveal_strlit("fish_color_quote");
                assert("fish_color_quote"@.len() == 16);
                reveal_strlit("fish_color_redirection");
                assert("fish_color_redirection"@.len() == 22);
                reveal_strlit("fish_color_end");
                assert("fish_color_end"@.len() == 14);
                reveal_strlit("fish_color_error");
                assert("fish_color_error"@.len() == 16);
                reveal_strlit("fish_color_param");
                assert("fish_color_param"@.len() == 16);
                reveal_strlit("fish_color_option");
                assert("fish_color_escape"@[11] != "fish_color_option"@[11]);
                reveal_strlit("fish_color_comment");
                assert("fish_color_comment"@.len() == 18);
                reveal_strlit("fish_color_selection");
                assert("fish_color_selection"@.len() == 20);
                reveal_strlit("fish_color_operator");
                assert("fish_color_operator"@.len() == 19);
            }
        },
        FishColorVar::Autosuggestion => {
            assert(color_var_of("fish_color_autosuggestion"@) == Some(FishColorVar::Autosuggestion)) by {
                reveal_strlit("fish_color_autosuggestion");
                assert("fish_color_autosuggestion"@.len() == 25);
                reveal_strlit("fish_color_normal");
                assert("fish_color_normal"@.len() == 17);
                reveal_strlit("fish_color_command");
                assert("fish_color_command"@.len() == 18);
                reveal_strlit("fish_color_keyword");
                assert("fish_color_keyword"@.len() == 18);
                reveal_strlit("fish_color_quote");
                assert("fish_color_quote"@.len() == 16);
                reveal_strlit("fish_color_redirection");
                assert("fish_color_redirection"@.len() == 22);
                reveal_strlit("fish_color_end");
                assert("fish_color_end"@.len() == 14);
                reveal_strlit("fish_color_error");
                assert("fish_color_error"@.len() == 16);
                reveal_strlit("fish_color_param");
                assert("fish_color_param"@.len() == 16);
                reveal_strlit("fish_color_option");
                assert("fish_color_option"@.len() == 17);
                reveal_strlit("fish_color_comment");
                assert("fish_color_comment"@.len() == 18);
                reveal_strlit("fish_color_selection");
                assert("fish_color_selection"@.len() == 20);
                reveal_strlit("fish_color_operator");
                assert("fish_color_operator"@.len() == 19);
                reveal_strlit("fish_color_escape");
                assert("fish_color_escape"@.len() == 17);
            }
        },
        FishColorVar::MatchingParens => {
            assert(color_var_of("fish_color_matching_paren"@) == Some(FishColorVar::MatchingParens)) by {
                reveal_strlit("fish_color_matching_paren");
                assert("fish_color_matching_paren"@.len() == 25);
                reveal_strlit("fish_color_normal");
                assert("fish_color_normal"@.len() == 17);
                reveal_strlit("fish_color_command");
                assert("fish_color_command"@.len() == 18);
                reveal_strlit("fish_color_keyword");
                assert("fish_color_keyword"@.len() == 18);
                reveal_strlit("fish_color_quote");
                assert("fish_color_quote"@.len() == 16);
                reveal_strlit("fish_color_redirection");
                assert("fish_color_redirection"@.len() == 22);
                reveal_strlit("fish_color_end");
                assert("fish_color_end"@.len() == 14);
                reveal_strlit("fish_color_error");
                assert("fish_color_error"@.len() == 16);
                reveal_strlit("fish_color_param");
                assert("fish_color_param"@.len() == 16);
                reveal_strlit("fish_color_option");
                assert("fish_color_option"@.len() == 17);
                reveal_strlit("fish_color_comment");
                assert("fish_color_comment"@.len() == 18);
                reveal_strlit("fish_color_selection");
                assert("fish_color_selection"@.len() == 20);
                reveal_strlit("fish_color_operator");
                assert("fish_color_operator"@.len() == 19);
                reveal_strlit("fish_color_escape");
                assert("fish_color_escape"@.len() == 17);
                reveal_strlit("fish_color_autosuggestion");
                assert("fish_color_matching_paren"@[11] != "fish_color_autosuggestion"@[11]);
            }
        },
        FishColorVar::HistoryCurrent => {
            assert(color_var_of("fish_color_history_current"@) == Some(FishColorVar::HistoryCurrent)) by {
                reveal_strlit("fish_color_history_current");
                assert("fish_color_history_current"@.len() == 26);
                reveal_strlit("fish_color_normal");
                assert("fish_color_normal"@.len() == 17);
                reveal_strlit("fish_color_command");
                assert("fish_color_command"@.len() == 18);
                reveal_strlit("fish_color_keyword");
                assert("fish_color_keyword"@.len() == 18);
                reveal_strlit("fish_color_quote");
                assert("fish_color_quote"@.len() == 16);
                reveal_strlit("fish_color_redirection");
                assert("fish_color_redirection"@.len() == 22);
                reveal_strlit("fish_color_end");
                assert("fish_color_end"@.len() == 14);
                reveal_strlit("fish_color_error");
                assert("fish_color_error"@.len() == 16);
                reveal_strlit("fish_color_param");
                assert("fish_color_param"@.len() == 16);
                reveal_strlit("fish_color_option");
                assert("fish_color_option"@.len() == 17);
                reveal_strlit("fish_color_comment");
                assert("fish_color_comment"@.len() == 18);
                reveal_strlit("fish_color_selection");
                assert("fish_color_selection"@.len() == 20);
                reveal_strlit("fish_color_operator");
                assert("fish_color_operator"@.len() == 19);
                reveal_strlit("fish_color_escape");
                assert("fish_color_escape"@.len() == 17);
                reveal_strlit("fish_color_autosuggestion");
                assert("fish_color_autosuggestion"@.len() == 25);
                reveal_strlit("fish_color_matching_paren");
                assert("fish_color_matching_paren"@.len() == 25);
            }
        },
        FishColorVar::SearchMatch => {
            assert(color_var_of("fish_color_search_match"@) == Some(FishColorVar::SearchMatch)) by {
                reveal_strlit("fish_color_search_match");
                assert("fish_color_search_match"@.len() == 23);
                reveal_strlit("fish_color_normal");
                assert("fish_color_normal"@.len() == 17);
                reveal_strlit("fish_color_command");
                assert("fish_color_command"@.len() == 18);
                reveal_strlit("fish_color_keyword");
                assert("fish_color_keyword"@.len() == 18);
                reveal_strlit("fish_color_quote");
                assert("fish_color_quote"@.len() == 16);
                reveal_strlit("fish_color_redirection");
                assert("fish_color_redirection"@.len() == 22);
                reveal_strlit("fish_color_end");
                assert("fish_color_end"@.len() == 14);
                reveal_strlit("fish_color_error");
                assert("fish_color_error"@.len() == 16);
                reveal_strlit("fish_color_param");
                assert("fish_color_param"@.len() == 16);
                reveal_strlit("fish_color_option");
                assert("fish_color_option"@.len() == 17);
                reveal_strlit("fish_color_comment");
                assert("fish_color_comment"@.len() == 18);
                reveal_strlit("fish_color_selection");
                assert("fish_color_selection"@.len() == 20);
                reveal_strlit("fish_color_operator");
                assert("fish_color_operator"@.len() == 19);
                reveal_strlit("fish_color_escape");
                assert("fish_color_escape"@.len() == 17);
                reveal_strlit("fish_color_autosuggestion");
                assert("fish_color_autosuggestion"@.len() == 25);
                reveal_strlit("fish_color_matching_paren");
                assert("fish_color_matching_paren"@.len() == 25);
                reveal_strlit("fish_color_history_current");
                assert("fish_color_history_current"@.len() == 26);
            }
        },
        FishColorVar::ValidPath => {
            assert(color_var_of("fish_color_valid_path"@) == Some(FishColorVar::ValidPath)) by {
                reveal_strlit("fish_color_valid_path");
                assert("fish_color_valid_path"@.len() == 21);
                reveal_strlit("fish_color_normal");
                assert("fish_color_normal"@.len() == 17);
                reveal_strlit("fish_color_command");
                assert("fish_color_command"@.len() == 18);
                reveal_strlit("fish_color_keyword");
                assert("fish_color_keyword"@.len() == 18);
                reveal_strlit("fish_color_quote");
                assert("fish_color_quote"@.len() == 16);
                reveal_strlit("fish_color_redirection");
                assert("fish_color_redirection"@.len() == 22);
                reveal_strlit("fish_color_end");
                assert("fish_color_end"@.len() == 14);
                reveal_strlit("fish_color_error");
                assert("fish_color_error"@.len() == 16);
                reveal_strlit("fish_color_param");
                assert("fish_color_param"@.len() == 16);
                reveal_strlit("fish_color_option");
                assert("fish_color_option"@.len() == 17);
                reveal_strlit("fish_color_comment");
                assert("fish_color_comment"@.len() == 18);
                reveal_strlit("fish_color_selection");
                assert("fish_color_selection"@.len() == 20);
                reveal_strlit("fish_color_operator");
                assert("fish_color_operator"@.len() == 19);
                reveal_strlit("fish_color_escape");
                assert("fish_color_escape"@.len() == 17);
                reveal_strlit("fish_color_autosuggestion");
                assert("fish_color_autosuggestion"@.len() == 25);
                reveal_strlit("fish_color_matching_paren");
                assert("fish_color_matching_paren"@.len() == 25);
                reveal_strlit("fish_color_history_current");
                assert("fish_color_history_current"@.len() == 26);
                reveal_strlit("fish_color_search_match");
                assert("fish_color_search_match"@.len() == 23);
            }
        },
        FishColorVar::Cancel => {
            assert(color_var_of("fish_color_cancel"@) == Some(FishColorVar::Cancel)) by {
                reveal_strlit("fish_color_cancel");
                assert("fish_color_cancel"@.len() == 17);
                reveal_strlit("fish_color_normal");
                assert("fish_color_cancel"@[11] != "fish_color_normal"@[11]);
                reveal_strlit("fish_color_command");
                assert("fish_color_command"@.len() == 18);
                reveal_strlit("fish_color_keyword");
                assert("fish_color_keyword"@.len() == 18);
                reveal_strlit("fish_color_quote");
                assert("fish_color_quote"@.len() == 16);
                reveal_strlit("fish_color_redirection");
                assert("fish_color_redirection"@.len() == 22);
                reveal_strlit("fish_color_end");
                assert("fish_color_end"@.len() == 14);
                reveal_strlit("fish_color_error");
                assert("fish_color_error"@.len() == 16);
                reveal_strlit("fish_color_param");
                assert("fish_color_param"@.len() == 16);
                reveal_strlit("fish_color_option");
                assert("fish_color_cancel"@[11] != "fish_color_option"@[11]);
                reveal_strlit("fish_color_comment");
                assert("fish_color_comment"@.len() == 18);
                reveal_strlit("fish_color_selection");
                assert("fish_color_selection"@.len() == 20);
                reveal_strlit("fish_color_operator");
                assert("fish_color_operator"@.len() == 19);
                reveal_strlit("fish_color_escape");
                assert("fish_color_cancel"@[11] != "fish_color_escape"@[11]);
                reveal_strlit("fish_color_autosuggestion");
                assert("fish_color_autosuggestion"@.len() == 25);
                reveal_strlit("fish_color_matching_paren");
                assert("fish_color_matching_paren"@.len() == 25);
                reveal_strlit("fish_color_history_current");
                assert("fish_color_history_current"@.len() == 26);
                reveal_strlit("fish_color_search_match");
                assert("fish_color_search_match"@.len() == 23);
                reveal_strlit("fish_color_valid_path");
                assert("fish_color_valid_path"@.len() == 21);
            }
        },
        FishColorVar::PagerProgress => {
            assert(color_var_of("fish_pager_color_progress"@) == Some(FishColorVar::PagerProgress)) by {
                reveal_strlit("fish_pager_color_progress");
                assert("fish_pager_color_progress"@.len() == 25);
                reveal_strlit("fish_color_normal");
                assert("fish_color_normal"@.len() == 17);
                reveal_strlit("fish_color_command");
                assert("fish_color_command"@.len() == 18);
                reveal_strlit("fish_color_keyword");
                assert("fish_color_keyword"@.len() == 18);
                reveal_strlit("fish_color_quote");
                assert("fish_color_quote"@.len() == 16);
                reveal_strlit("fish_color_redirection");
                assert("fish_color_redirection"@.len() == 22);
                reveal_strlit("fish_color_end");
                assert("fish_color_end"@.len() == 14);
                reveal_strlit("fish_color_error");
                assert("fish_color_error"@.len() == 16);
                reveal_strlit("fish_color_param");
                assert("fish_color_param"@.len() == 16);
                reveal_strlit("fish_color_option");
                assert("fish_color_option"@.len() == 17);
                reveal_strlit("fish_color_comment");
                assert("fish_color_comment"@.len() == 18);
                reveal_strlit("fish_color_selection");
                assert("fish_color_selection"@.len() == 20);
                reveal_strlit("fish_color_operator");
                assert("fish_color_operator"@.len() == 19);
                reveal_strlit("fish_color_escape");
                assert("fish_color_escape"@.len() == 17);
                reveal_strlit("fish_color_autosuggestion");
                assert("fish_pager_color_progress"@[5] != "fish_color_autosuggestion"@[5]);
                reveal_strlit("fish_color_matching_paren");
                assert("fish_pager_color_progress"@[5] != "fish_color_matching_paren"@[5]);
                reveal_strlit("fish_color_history_current");
                assert("fish_color_history_current"@.len() == 26);
                reveal_strlit("fish_color_search_match");
                assert("fish_color_search_match"@.len() == 23);
                reveal_strlit("fish_color_valid_path");
                assert("fish_color_valid_path"@.len() == 21);
                reveal_strlit("fish_color_cancel");
                assert("fish_color_cancel"@.len() == 17);
            }
        },
        FishColorVar::PagerBackground => {
            assert(color_var_of("fish_pager_color_background"@) == Some(FishColorVar::PagerBackground)) by {
                reveal_strlit("fish_pager_color_background");
                assert("fish_pager_color_background"@.len() == 27);
                reveal_strlit("fish_color_normal");
                assert("fish_color_normal"@.len() == 17);
                reveal_strlit("fish_color_command");
                assert("fish_color_command"@.len() == 18);
                reveal_strlit("fish_color_keyword");
                assert("fish_color_keyword"@.len() == 18);
                reveal_strlit("fish_color_quote");
                assert("fish_color_quote"@.len() == 16);
                reveal_strlit("fish_color_redirection");
                assert("fish_color_redirection"@.len() == 22);
                reveal_strlit("fish_color_end");
                assert("fish_color_end"@.len() == 14);
                reveal_strlit("fish_color_error");
                assert("fish_color_error"@.len() == 16);
                reveal_strlit("fish_color_param");
                assert("fish_color_param"@.len() == 16);
                reveal_strlit("fish_color_option");
                assert("fish_color_option"@.len() == 17);
                reveal_strlit("fish_color_comment");
                assert("fish_color_comment"@.len() == 18);
                reveal_strlit("fish_color_selection");
                assert("fish_color_selection"@.len() == 20);
                reveal_strlit("fish_color_operator");
                assert("fish_color_operator"@.len() == 19);
                reveal_strlit("fish_color_escape");
                assert("fish_color_escape"@.len() == 17);
                reveal_strlit("fish_color_autosuggestion");
                assert("fish_color_autosuggestion"@.len() == 25);
                reveal_strlit("fish_color_matching_paren");
                assert("fish_color_matching_paren"@.len() == 25);
                reveal_strlit("fish_color_history_current");
                assert("fish_color_history_current"@.len() == 26);
                reveal_strlit("fish_color_search_match");
                assert("fish_color_search_match"@.len() == 23);
                reveal_strlit("fish_color_valid_path");
                assert("fish_color_valid_path"@.len() == 21);
                reveal_strlit("fish_color_cancel");
                assert("fish_color_cancel"@.len() == 17);
                reveal_strlit("fish_pager_color_progress");
                assert("fish_pager_color_progress"@.len() == 25);
            }
        },
        FishColorVar::PagerSecondaryBackground => {
            assert(color_var_of("fish_pager_color_secondary_background"@) == Some(FishColorVar::PagerSecondaryBackground)) by {
                reveal_strlit("fish_pager_color_secondary_background");
                assert("fish_pager_color_secondary_background"@.len() == 37);
                reveal_strlit("fish_color_normal");
                assert("fish_color_normal"@.len() == 17);
                reveal_strlit("fish_color_command");
                assert("fish_color_command"@.len() == 18);
                reveal_strlit("fish_color_keyword");
                assert("fish_color_keyword"@.len() == 18);
                reveal_strlit("fish_color_quote");
                assert("fish_color_quote"@.len() == 16);
                reveal_strlit("fish_color_redirection");
                assert("fish_color_redirection"@.len() == 22);
                reveal_strlit("fish_color_end");
                assert("fish_color_end"@.len() == 14);
                reveal_strlit("fish_color_error");
                assert("fish_color_error"@.len() == 16);
                reveal_strlit("fish_color_param");
                assert("fish_color_param"@.len() == 16);
                reveal_strlit("fish_color_option");
                assert("fish_color_option"@.len() == 17);
                reveal_strlit("fish_color_comment");
                assert("fish_color_comment"@.len() == 18);
                reveal_strlit("fish_color_selection");
                assert("fish_color_selection"@.len() == 20);
                reveal_strlit("fish_color_operator");
                assert("fish_color_operator"@.len() == 19);
                reveal_strlit("fish_color_escape");
                assert("fish_color_escape"@.len() == 17);
                reveal_strlit("fish_color_autosuggestion");
                assert("fish_color_autosuggestion"@.len() == 25);
                reveal_strlit("fish_color_matching_paren");
                assert("fish_color_matching_paren"@.len() == 25);
                reveal_strlit("fish_color_history_current");
                assert("fish_color_history_current"@.len() == 26);
                reveal_strlit("fish_color_search_match");
                assert("fish_color_search_match"@.len() == 23);
                reveal_strlit("fish_color_valid_path");
                assert("fish_color_valid_path"@.len() == 21);
                reveal_strlit("fish_color_cancel");
                assert("fish_color_cancel"@.len() == 17);
                reveal_strlit("fish_pager_color_progress");
                assert("fish_pager_color_progress"@.len() == 25);
                reveal_strlit("fish_pager_color_background");
                assert("fish_pager_color_background"@.len() == 27);
            }
        },
        FishColorVar::PagerSelectedBackground => {
            assert(color_var_of("fish_pager_color_selected_background"@) == Some(FishColorVar::PagerSelectedBackground)) by {
                reveal_strlit("fish_pager_color_selected_background");
                assert("fish_pager_color_selected_background"@.len() == 36);
                reveal_strlit("fish_color_normal");
                assert("fish_color_normal"@.len() == 17);
                reveal_strlit("fish_color_command");
                assert("fish_color_command"@.len() == 18);
                reveal_strlit("fish_color_keyword");
                assert("fish_color_keyword"@.len() == 18);
                reveal_strlit("fish_color_quote");
                assert("fish_color_quote"@.len() == 16);
                reveal_strlit("fish_color_redirection");
                assert("fish_color_redirection"@.len() == 22);
                reveal_strlit("fish_color_end");
                assert("fish_color_end"@.len() == 14);
                reveal_strlit("fish_color_error");
                assert("fish_color_error"@.len() == 16);
                reveal_strlit("fish_color_param");
                assert("fish_color_param"@.len() == 16);
                reveal_strlit("fish_color_option");
                assert("fish_color_option"@.len() == 17);
                reveal_strlit("fish_color_comment");
                assert("fish_color_comment"@.len() == 18);
                reveal_strlit("fish_color_selection");
                assert("fish_color_selection"@.len() == 20);
                reveal_strlit("fish_color_operator");
                assert("fish_color_operator"@.len() == 19);
                reveal_strlit("fish_color_escape");
                assert("fish_color_escape"@.len() == 17);
                reveal_strlit("fish_color_autosuggestion");
                assert("fish_color_autosuggestion"@.len() == 25);
                reveal_strlit("fish_color_matching_paren");
                assert("fish_color_matching_paren"@.len() == 25);
                reveal_strlit("fish_color_history_current");
                assert("fish_color_history_current"@.len() == 26);
                reveal_strlit("fish_color_search_match");
                assert("fish_color_search_match"@.len() == 23);
                reveal_strlit("fish_color_valid_path");
                assert("fish_color_valid_path"@.len() == 21);
                reveal_strlit("fish_color_cancel");
                assert("fish_color_cancel"@.len() == 17);
                reveal_strlit("fish_pager_color_progress");
                assert("fish_pager_color_progress"@.len() == 25);
                reveal_strlit("fish_pager_color_background");
                assert("fish_pager_color_background"@.len() == 27);
                reveal_strlit("fish_pager_color_secondary_background");
                assert("fish_pager_color_secondary_background"@.len() == 37);
            }
        },
        FishColorVar::PagerPrefix => {
            assert(color_var_of("fish_pager_color_prefix"@) == Some(FishColorVar::PagerPrefix)) by {
                reveal_strlit("fish_pager_color_prefix");
                assert("fish_pager_color_prefix"@.len() == 23);
                reveal_strlit("fish_color_normal");
                assert("fish_color_normal"@.len() == 17);
                reveal_strlit("fish_color_command");
                assert("fish_color_command"@.len() == 18);
                reveal_strlit("fish_color_keyword");
                assert("fish_color_keyword"@.len() == 18);
                reveal_strlit("fish_color_quote");
                assert("fish_color_quote"@.len() == 16);
                reveal_strlit("fish_color_redirection");
                assert("fish_color_redirection"@.len() == 22);
                reveal_strlit("fish_color_end");
                assert("fish_color_end"@.len() == 14);
                reveal_strlit("fish_color_error");
                assert("fish_color_error"@.len() == 16);
                reveal_strlit("fish_color_param");
                assert("fish_color_param"@.len() == 16);
                reveal_strlit("fish_color_option");
                assert("fish_color_option"@.len() == 17);
                reveal_strlit("fish_color_comment");
                assert("fish_color_comment"@.len() == 18);
                reveal_strlit("fish_color_selection");
                assert("fish_color_selection"@.len() == 20);
                reveal_strlit("fish_color_operator");
                assert("fish_color_operator"@.len() == 19);
                reveal_strlit("fish_color_escape");
                assert("fish_color_escape"@.len() == 17);
                reveal_strlit("fish_color_autosuggestion");
                assert("fish_color_autosuggestion"@.len() == 25);
                reveal_strlit("fish_color_matching_paren");
                assert("fish_color_matching_paren"@.len() == 25);
                reveal_strlit("fish_color_history_current");
                assert("fish_color_history_current"@.len() == 26);
                reveal_strlit("fish_color_search_match");
                assert("fish_pager_color_prefix"@[5] != "fish_color_search_match"@[5]);
                reveal_strlit("fish_color_valid_path");
                assert("fish_color_valid_path"@.len() == 21);
                reveal_strlit("fish_color_cancel");
                assert("fish_color_cancel"@.len() == 17);
                reveal_strlit("fish_pager_color_progress");
                assert("fish_pager_color_progress"@.len() == 25);
                reveal_strlit("fish_pager_color_background");
                assert("fish_pager_color_background"@.len() == 27);
                reveal_strlit("fish_pager_color_secondary_background");
                assert("fish_pager_color_secondary_background"@.len() == 37);
                reveal_strlit("fish_pager_color_selected_background");
                assert("fish_pager_color_selected_background"@.len() == 36);
            }
        },
        FishColorVar::PagerCompletion => {
            assert(color_var_of("fish_pager_color_completion"@) == Some(FishColorVar::PagerCompletion)) by {
                reveal_strlit("fish_pager_color_completion");
                assert("fish_pager_color_completion"@.len() == 27);
                reveal_strlit("fish_color_normal");
                assert("fish_color_normal"@.len() == 17);
                reveal_strlit("fish_color_command");
                assert("fish_color_command"@.len() == 18);
                reveal_strlit("fish_color_keyword");
                assert("fish_color_keyword"@.len() == 18);
                reveal_strlit("fish_color_quote");
                assert("fish_color_quote"@.len() == 16);
                reveal_strlit("fish_color_redirection");
                assert("fish_color_redirection"@.len() == 22);
                reveal_strlit("fish_color_end");
                assert("fish_color_end"@.len() == 14);
                reveal_strlit("fish_color_error");
                assert("fish_color_error"@.len() == 16);
                reveal_strlit("fish_color_param");
                assert("fish_color_param"@.len() == 16);
                reveal_strlit("fish_color_option");
                assert("fish_color_option"@.len() == 17);
                reveal_strlit("fish_color_comment");
                assert("fish_color_comment"@.len() == 18);
                reveal_strlit("fish_color_selection");
                assert("fish_color_selection"@.len() == 20);
                reveal_strlit("fish_color_operator");
                assert("fish_color_operator"@.len() == 19);
                reveal_strlit("fish_color_escape");
                assert("fish_color_escape"@.len() == 17);
                reveal_strlit("fish_color_autosuggestion");
                assert("fish_color_autosuggestion"@.len() == 25);
                reveal_strlit("fish_color_matching_paren");
                assert("fish_color_matching_paren"@.len() == 25);
                reveal_strlit("fish_color_history_current");
                assert("fish_color_history_current"@.len() == 26);
                reveal_strlit("fish_color_search_match");
                assert("fish_color_search_match"@.len() == 23);
                reveal_strlit("fish_color_valid_path");
                assert("fish_color_valid_path"@.len() == 21);
                reveal_strlit("fish_color_cancel");
                assert("fish_color_cancel"@.len() == 17);
                reveal_strlit("fish_pager_color_progress");
                assert("fish_pager_color_progress"@.len() == 25);
                reveal_strlit("fish_pager_color_background");
                assert("fish_pager_color_completion"@[17] != "fish_pager_color_background"@[17]);
                reveal_strlit("fish_pager_color_secondary_background");
                assert("fish_pager_color_secondary_background"@.len() == 37);
                reveal_strlit("fish_pager_color_selected_background");
                assert("fish_pager_color_selected_background"@.len() == 36);
                reveal_strlit("fish_pager_color_prefix");
                assert("fish_pager_color_prefix"@.len() == 23);
            }
        },
        FishColorVar::PagerDescription => {
            assert(color_var_of("fish_pager_color_description"@) == Some(FishColorVar::PagerDescription)) by {
                reveal_strlit("fish_pager_color_description");
                assert("fish_pager_color_description"@.len() == 28);
                reveal_strlit("fish_color_normal");
                assert("fish_color_normal"@.len() == 17);
                reveal_strlit("fish_color_command");
                assert("fish_color_command"@.len() == 18);
                reveal_strlit("fish_color_keyword");
                assert("fish_color_keyword"@.len() == 18);
                reveal_strlit("fish_color_quote");
                assert("fish_color_quote"@.len() == 16);
                reveal_strlit("fish_color_redirection");
                assert("fish_color_redirection"@.len() == 22);
                reveal_strlit("fish_color_end");
                assert("fish_color_end"@.len() == 14);
                reveal_strlit("fish_color_error");
                assert("fish_color_error"@.len() == 16);
                reveal_strlit("fish_color_param");
                assert("fish_color_param"@.len() == 16);
                reveal_strlit("fish_color_option");
                assert("fish_color_option"@.len() == 17);
                reveal_strlit("fish_color_comment");
                assert("fish_color_comment"@.len() == 18);
                reveal_strlit("fish_color_selection");
                assert("fish_color_selection"@.len() == 20);
                reveal_strlit("fish_color_operator");
                assert("fish_color_operator"@.len() == 19);
                reveal_strlit("fish_color_escape");
                assert("fish_color_escape"@.len() == 17);
                reveal_strlit("fish_color_autosuggestion");
                assert("fish_color_autosuggestion"@.len() == 25);
                reveal_strlit("fish_color_matching_paren");
                assert("fish_color_matching_paren"@.len() == 25);
                reveal_strlit("fish_color_history_current");
                assert("fish_color_history_current"@.len() == 26);
                reveal_strlit("fish_color_search_match");
                assert("fish_color_search_match"@.len() == 23);
                reveal_strlit("fish_color_valid_path");
                assert("fish_color_valid_path"@.len() == 21);
                reveal_strlit("fish_color_cancel");
                assert("fish_color_cancel"@.len() == 17);
                reveal_strlit("fish_pager_color_progress");
                assert("fish_pager_color_progress"@.len() == 25);
                reveal_strlit("fish_pager_color_background");
                assert("fish_pager_color_background"@.len() == 27);
                reveal_strlit("fish_pager_color_secondary_background");
                assert("fish_pager_color_secondary_background"@.len() == 37);
                reveal_strlit("fish_pager_color_selected_background");
                assert("fish_pager_color_selected_background"@.len() == 36);
                reveal_strlit("fish_pager_color_prefix");
                assert("fish_pager_color_prefix"@.len() == 23);
                reveal_strlit("fish_pager_color_completion");
                assert("fish_pager_color_completion"@.len() == 27);
            }
        },
        FishColorVar::PagerSecondaryPrefix => {
            assert(color_var_of("fish_pager_color_secondary_prefix"@) == Some(FishColorVar::PagerSecondaryPrefix)) by {
                reveal_strlit("fish_pager_color_secondary_prefix");
                assert("fish_pager_color_secondary_prefix"@.len() == 33);
                reveal_strlit("fish_color_normal");
                assert("fish_color_normal"@.len() == 17);
                reveal_strlit("fish_color_command");
                assert("fish_color_command"@.len() == 18);
                reveal_strlit("fish_color_keyword");
                assert("fish_color_keyword"@.len() == 18);
                reveal_strlit("fish_color_quote");
                assert("fish_color_quote"@.len() == 16);
                reveal_strlit("fish_color_redirection");
                assert("fish_color_redirection"@.len() == 22);
                reveal_strlit("fish_color_end");
                assert("fish_color_end"@.len() == 14);
                reveal_strlit("fish_color_error");
                assert("fish_color_error"@.len() == 16);
                reveal_strlit("fish_color_param");
                assert("fish_color_param"@.len() == 16);
                reveal_strlit("fish_color_option");
                assert("fish_color_option"@.len() == 17);
                reveal_strlit("fish_color_comment");
                assert("fish_color_comment"@.len() == 18);
                reveal_strlit("fish_color_selection");
                assert("fish_color_selection"@.len() == 20);
                reveal_strlit("fish_color_operator");
                assert("fish_color_operator"@.len() == 19);
                reveal_strlit("fish_color_escape");
                assert("fish_color_escape"@.len() == 17);
                reveal_strlit("fish_color_autosuggestion");
                assert("fish_color_autosuggestion"@.len() == 25);
                reveal_strlit("fish_color_matching_paren");
                assert("fish_color_matching_paren"@.len() == 25);
                reveal_strlit("fish_color_history_current");
                assert("fish_color_history_current"@.len() == 26);
                reveal_strlit("fish_color_search_match");
                assert("fish_color_search_match"@.len() == 23);
                reveal_strlit("fish_color_valid_path");
                assert("fish_color_valid_path"@.len() == 21);
                reveal_strlit("fish_color_cancel");
                assert("fish_color_cancel"@.len() == 17);
                reveal_strlit("fish_pager_color_progress");
                assert("fish_pager_color_progress"@.len() == 25);
                reveal_strlit("fish_pager_color_background");
                assert("fish_pager_color_background"@.len() == 27);
                reveal_strlit("fish_pager_color_secondary_background");
                assert("fish_pager_color_secondary_background"@.len() == 37);
                reveal_strlit("fish_pager_color_selected_background");
                assert("fish_pager_color_selected_background"@.len() == 36);
                reveal_strlit("fish_pager_color_prefix");
                assert("fish_pager_color_prefix"@.len() == 23);
                reveal_strlit("fish_pager_color_completion");
                assert("fish_pager_color_completion"@.len() == 27);
                reveal_strlit("fish_pager_color_description");
                assert("fish_pager_color_description"@.len() == 28);
            }
        },
        FishColorVar::PagerSecondaryCompletion => {
            assert(color_var_of("fish_pager_color_secondary_completion"@) == Some(FishColorVar::PagerSecondaryCompletion)) by {
                reveal_strlit("fish_pager_color_secondary_completion");
                assert("fish_pager_color_secondary_completion"@.len() == 37);
                reveal_strlit("fish_color_normal");
                assert("fish_color_normal"@.len() == 17);
                reveal_strlit("fish_color_command");
                assert("fish_color_command"@.len() == 18);
                reveal_strlit("fish_color_keyword");
                assert("fish_color_keyword"@.len() == 18);
                reveal_strlit("fish_color_quote");
                assert("fish_color_quote"@.len() == 16);
                reveal_strlit("fish_color_redirection");
                assert("fish_color_redirection"@.len() == 22);
                reveal_strlit("fish_color_end");
                assert("fish_color_end"@.len() == 14);
                reveal_strlit("fish_color_error");
                assert("fish_color_error"@.len() == 16);
                reveal_strlit("fish_color_param");
                assert("fish_color_param"@.len() == 16);
                reveal_strlit("fish_color_option");
                assert("fish_color_option"@.len() == 17);
                reveal_strlit("fish_color_comment");
                assert("fish_color_comment"@.len() == 18);
                reveal_strlit("fish_color_selection");
                assert("fish_color_selection"@.len() == 20);
                reveal_strlit("fish_color_operator");
                assert("fish_color_operator"@.len() == 19);
                reveal_strlit("fish_color_escape");
                assert("fish_color_escape"@.len() == 17);
                reveal_strlit("fish_color_autosuggestion");
                assert("fish_color_autosuggestion"@.len() == 25);
                reveal_strlit("fish_color_matching_paren");
                assert("fish_color_matching_paren"@.len() == 25);
                reveal_strlit("fish_color_history_current");
                assert("fish_color_history_current"@.len() == 26);
                reveal_strlit("fish_color_search_match");
                assert("fish_color_search_match"@.len() == 23);
                reveal_strlit("fish_color_valid_path");
                assert("fish_color_valid_path"@.len() == 21);
                reveal_strlit("fish_color_cancel");
                assert("fish_color_cancel"@.len() == 17);
                reveal_strlit("fish_pager_color_progress");
                assert("fish_pager_color_progress"@.len() == 25);
                reveal_strlit("fish_pager_color_background");
                assert("fish_pager_color_background"@.len() == 27);
                reveal_strlit("fish_pager_color_secondary_background");
                assert("fish_pager_color_secondary_completion"@[27] != "fish_pager_color_secondary_background"@[27]);
                reveal_strlit("fish_pager_color_selected_background");
                assert("fish_pager_color_selected_background"@.len() == 36);
                reveal_strlit("fish_pager_color_prefix");
                assert("fish_pager_color_prefix"@.len() == 23);
                reveal_strlit("fish_pager_color_completion");
                assert("fish_pager_color_completion"@.len() == 27);
                reveal_strlit("fish_pager_color_description");
                assert("fish_pager_color_description"@.len() == 28);
                reveal_strlit("fish_pager_color_secondary_prefix");
                assert("fish_pager_color_secondary_prefix"@.len() == 33);
            }
        },
        FishColorVar::PagerSecondaryDescription => {
            assert(color_var_of("fish_pager_color_secondary_description"@) == Some(FishColorVar::PagerSecondaryDescription)) by {
                reveal_strlit("fish_pager_color_secondary_description");
                assert("fish_pager_color_secondary_description"@.len() == 38);
                reveal_strlit("fish_color_normal");
                assert("fish_color_normal"@.len() == 17);
                reveal_strlit("fish_color_command");
                assert("fish_color_command"@.len() == 18);
                reveal_strlit("fish_color_keyword");
                assert("fish_color_keyword"@.len() == 18);
                reveal_strlit("fish_color_quote");
                assert("fish_color_quote"@.len() == 16);
                reveal_strlit("fish_color_redirection");
                assert("fish_color_redirection"@.len() == 22);
                reveal_strlit("fish_color_end");
                assert("fish_color_end"@.len() == 14);
                reveal_strlit("fish_color_error");
                assert("fish_color_error"@.len() == 16);
                reveal_strlit("fish_color_param");
                assert("fish_color_param"@.len() == 16);
                reveal_strlit("fish_color_option");
                assert("fish_color_option"@.len() == 17);
                reveal_strlit("fish_color_comment");
                assert("fish_color_comment"@.len() == 18);
                reveal_strlit("fish_color_selection");
                assert("fish_color_selection"@.len() == 20);
                reveal_strlit("fish_color_operator");
                assert("fish_color_operator"@.len() == 19);
                reveal_strlit("fish_color_escape");
                assert("fish_color_escape"@.len() == 17);
                reveal_strlit("fish_color_autosuggestion");
                assert("fish_color_autosuggestion"@.len() == 25);
                reveal_strlit("fish_color_matching_paren");
                assert("fish_color_matching_paren"@.len() == 25);
                reveal_strlit("fish_color_history_current");
                assert("fish_color_history_current"@.len() == 26);
                reveal_strlit("fish_color_search_match");
                assert("fish_color_search_match"@.len() == 23);
                reveal_strlit("fish_color_valid_path");
                assert("fish_color_valid_path"@.len() == 21);
                reveal_strlit("fish_color_cancel");
                assert("fish_color_cancel"@.len() == 17);
                reveal_strlit("fish_pager_color_progress");
                assert("fish_pager_color_progress"@.len() == 25);
                reveal_strlit("fish_pager_color_background");
                assert("fish_pager_color_background"@.len() == 27);
                reveal_strlit("fish_pager_color_secondary_background");
                assert("fish_pager_color_secondary_background"@.len() == 37);
                reveal_strlit("fish_pager_color_selected_background");
                assert("fish_pager_color_selected_background"@.len() == 36);
                reveal_strlit("fish_pager_color_prefix");
                assert("fish_pager_color_prefix"@.len() == 23);
                reveal_strlit("fish_pager_color_completion");
                assert("fish_pager_color_completion"@.len() == 27);
                reveal_strlit("fish_pager_color_description");
                assert("fish_pager_color_description"@.len() == 28);
                reveal_strlit("fish_pager_color_secondary_prefix");
                assert("fish_pager_color_secondary_prefix"@.len() == 33);
                reveal_strlit("fish_pager_color_secondary_completion");
                assert("fish_pager_color_secondary_completion"@.len() == 37);
            }
        },
        FishColorVar::PagerSelectedPrefix => {
            assert(color_var_of("fish_pager_color_selected_prefix"@) == Some(FishColorVar::PagerSelectedPrefix)) by {
                reveal_strlit("fish_pager_color_selected_prefix");
                assert("fish_pager_color_selected_prefix"@.len() == 32);
                reveal_strlit("fish_color_normal");
                assert("fish_color_normal"@.len() == 17);
                reveal_strlit("fish_color_command");
                assert("fish_color_command"@.len() == 18);
                reveal_strlit("fish_color_keyword");
                assert("fish_color_keyword"@.len() == 18);
                reveal_strlit("fish_color_quote");
                assert("fish_color_quote"@.len() == 16);
                reveal_strlit("fish_color_redirection");
                assert("fish_color_redirection"@.len() == 22);
                reveal_strlit("fish_color_end");
                assert("fish_color_end"@.len() == 14);
                reveal_strlit("fish_color_error");
                assert("fish_color_error"@.len() == 16);
                reveal_strlit("fish_color_param");
                assert("fish_color_param"@.len() == 16);
                reveal_strlit("fish_color_option");
                assert("fish_color_option"@.len() == 17);
                reveal_strlit("fish_color_comment");
                assert("fish_color_comment"@.len() == 18);
                reveal_strlit("fish_color_selection");
                assert("fish_color_selection"@.len() == 20);
                reveal_strlit("fish_color_operator");
                assert("fish_color_operator"@.len() == 19);
                reveal_strlit("fish_color_escape");
                assert("fish_color_escape"@.len() == 17);
                reveal_strlit("fish_color_autosuggestion");
                assert("fish_color_autosuggestion"@.len() == 25);
                reveal_strlit("fish_color_matching_paren");
                assert("fish_color_matching_paren"@.len() == 25);
                reveal_strlit("fish_color_history_current");
                assert("fish_color_history_current"@.len() == 26);
                reveal_strlit("fish_color_search_match");
                assert("fish_color_search_match"@.len() == 23);
                reveal_strlit("fish_color_valid_path");
                assert("fish_color_valid_path"@.len() == 21);
                reveal_strlit("fish_color_cancel");
                assert("fish_color_cancel"@.len() == 17);
                reveal_strlit("fish_pager_color_progress");
                assert("fish_pager_color_progress"@.len() == 25);
                reveal_strlit("fish_pager_color_background");
                assert("fish_pager_color_background"@.len() == 27);
                reveal_strlit("fish_pager_color_secondary_background");
                assert("fish_pager_color_secondary_background"@.len() == 37);
                reveal_strlit("fish_pager_color_selected_background");
                assert("fish_pager_color_selected_background"@.len() == 36);
                reveal_strlit("fish_pager_color_prefix");
                assert("fish_pager_color_prefix"@.len() == 23);
                reveal_strlit("fish_pager_color_completion");
                assert("fish_pager_color_completion"@.len() == 27);
                reveal_strlit("fish_pager_color_description");
                assert("fish_pager_color_description"@.len() == 28);
                reveal_strlit("fish_pager_color_secondary_prefix");
                assert("fish_pager_color_secondary_prefix"@.len() == 33);
                reveal_strlit("fish_pager_color_secondary_completion");
                assert("fish_pager_color_secondary_completion"@.len() == 37);
                reveal_strlit("fish_pager_color_secondary_description");
                assert("fish_pager_color_secondary_description"@.len() == 38);
            }
        },
        FishColorVar::PagerSelectedCompletion => {
            assert(color_var_of("fish_pager_color_selected_completion"@) == Some(FishColorVar::PagerSelectedCompletion)) by {
                reveal_strlit("fish_pager_color_selected_completion");
                assert("fish_pager_color_selected_completion"@.len() == 36);
                reveal_strlit("fish_color_normal");
                assert("fish_color_normal"@.len() == 17);
                reveal_strlit("fish_color_command");
                assert("fish_color_command"@.len() == 18);
                reveal_strlit("fish_color_keyword");
                assert("fish_color_keyword"@.len() == 18);
                reveal_strlit("fish_color_quote");
                assert("fish_color_quote"@.len() == 16);
                reveal_strlit("fish_color_redirection");
                assert("fish_color_redirection"@.len() == 22);
                reveal_strlit("fish_color_end");
                assert("fish_color_end"@.len() == 14);
                reveal_strlit("fish_color_error");
                assert("fish_color_error"@.len() == 16);
                reveal_strlit("fish_color_param");
                assert("fish_color_param"@.len() == 16);
                reveal_strlit("fish_color_option");
                assert("fish_color_option"@.len() == 17);
                reveal_strlit("fish_color_comment");
                assert("fish_color_comment"@.len() == 18);
                reveal_strlit("fish_color_selection");
                assert("fish_color_selection"@.len() == 20);
                reveal_strlit("fish_color_operator");
                assert("fish_color_operator"@.len() == 19);
                reveal_strlit("fish_color_escape");
                assert("fish_color_escape"@.len() == 17);
                reveal_strlit("fish_color_autosuggestion");
                assert("fish_color_autosuggestion"@.len() == 25);
                reveal_strlit("fish_color_matching_paren");
                assert("fish_color_matching_paren"@.len() == 25);
                reveal_strlit("fish_color_history_current");
                assert("fish_color_history_current"@.len() == 26);
                reveal_strlit("fish_color_search_match");
                assert("fish_color_search_match"@.len() == 23);
                reveal_strlit("fish_color_valid_path");
                assert("fish_color_valid_path"@.len() == 21);
                reveal_strlit("fish_color_cancel");
                assert("fish_color_cancel"@.len() == 17);
                reveal_strlit("fish_pager_color_progress");
                assert("fish_pager_color_progress"@.len() == 25);
                reveal_strlit("fish_pager_color_background");
                assert("fish_pager_color_background"@.len() == 27);
                reveal_strlit("fish_pager_color_secondary_background");
                assert("fish_pager_color_secondary_background"@.len() == 37);
                reveal_strlit("fish_pager_color_selected_background");
                assert("fish_pager_color_selected_completion"@[26] != "fish_pager_color_selected_background"@[26]);
                reveal_strlit("fish_pager_color_prefix");
                assert("fish_pager_color_prefix"@.len() == 23);
                reveal_strlit("fish_pager_color_completion");
                assert("fish_pager_color_completion"@.len() == 27);
                reveal_strlit("fish_pager_color_description");
                assert("fish_pager_color_description"@.len() == 28);
                reveal_strlit("fish_pager_color_secondary_prefix");
                assert("fish_pager_color_secondary_prefix"@.len() == 33);
                reveal_strlit("fish_pager_color_secondary_completion");
                assert("fish_pager_color_secondary_completion"@.len() == 37);
                reveal_strlit("fish_pager_color_secondary_description");
                assert("fish_pager_color_secondary_description"@.len() == 38);
                reveal_strlit("fish_pager_color_selected_prefix");
                assert("fish_pager_color_selected_prefix"@.len() == 32);
            }
        },
        FishColorVar::PagerSelectedDescription => {
            assert(color_var_of("fish_pager_color_selected_description"@) == Some(FishColorVar::PagerSelectedDescription)) by {
                reveal_strlit("fish_pager_color_selected_description");
                assert("fish_pager_color_selected_description"@.len() == 37);
                reveal_strlit("fish_color_normal");
                assert("fish_color_normal"@.len() == 17);
                reveal_strlit("fish_color_command");
                assert("fish_color_command"@.len() == 18);
                reveal_strlit("fish_color_keyword");
                assert("fish_color_keyword"@.len() == 18);
                reveal_strlit("fish_color_quote");
                assert("fish_color_quote"@.len() == 16);
                reveal_strlit("fish_color_redirection");
                assert("fish_color_redirection"@.len() == 22);
                reveal_strlit("fish_color_end");
                assert("fish_color_end"@.len() == 14);
                reveal_strlit("fish_color_error");
                assert("fish_color_error"@.len() == 16);
                reveal_strlit("fish_color_param");
                assert("fish_color_param"@.len() == 16);
                reveal_strlit("fish_color_option");
                assert("fish_color_option"@.len() == 17);
                reveal_strlit("fish_color_comment");
                assert("fish_color_comment"@.len() == 18);
                reveal_strlit("fish_color_selection");
                assert("fish_color_selection"@.len() == 20);
                reveal_strlit("fish_color_operator");
                assert("fish_color_operator"@.len() == 19);
                reveal_strlit("fish_color_escape");
                assert("fish_color_escape"@.len() == 17);
                reveal_strlit("fish_color_autosuggestion");
                assert("fish_color_autosuggestion"@.len() == 25);
                reveal_strlit("fish_color_matching_paren");
                assert("fish_color_matching_paren"@.len() == 25);
                reveal_strlit("fish_color_history_current");
                assert("fish_color_history_current"@.len() == 26);
                reveal_strlit("fish_color_search_match");
                assert("fish_color_search_match"@.len() == 23);
                reveal_strlit("fish_color_valid_path");
                assert("fish_color_valid_path"@.len() == 21);
                reveal_strlit("fish_color_cancel");
                assert("fish_color_cancel"@.len() == 17);
                reveal_strlit("fish_pager_color_progress");
                assert("fish_pager_color_progress"@.len() == 25);
                reveal_strlit("fish_pager_color_background");
                assert("fish_pager_color_background"@.len() == 27);
                reveal_strlit("fish_pager_color_secondary_background");
                assert("fish_pager_color_selected_description"@[19] != "fish_pager_color_secondary_background"@[19]);
                reveal_strlit("fish_pager_color_selected_background");
                assert("fish_pager_color_selected_background"@.len() == 36);
                reveal_strlit("fish_pager_color_prefix");
                assert("fish_pager_color_prefix"@.len() == 23);
                reveal_strlit("fish_pager_color_completion");
                assert("fish_pager_color_completion"@.len() == 27);
                reveal_strlit("fish_pager_color_description");
                assert("fish_pager_color_description"@.len() == 28);
                reveal_strlit("fish_pager_color_secondary_prefix");
                assert("fish_pager_color_secondary_prefix"@.len() == 33);
                reveal_strlit("fish_pager_color_secondary_completion");
                assert("fish_pager_color_selected_description"@[19] != "fish_pager_color_secondary_completion"@[19]);
                reveal_strlit("fish_pager_color_secondary_description");
                assert("fish_pager_color_secondary_description"@.len() == 38);
                reveal_strlit("fish_pager_color_selected_prefix");
                assert("fish_pager_color_selected_prefix"@.len() == 32);
                reveal_strlit("fish_pager_color_selected_completion");
                assert("fish_pager_color_selected_completion"@.len() == 36);
            }
        },
    }
}

/// Distinct color variables have distinct names, so no two settings write
/// the same variable.
pub proof fn color_var_names_are_distinct(a: FishColorVar, b: FishColorVar)
    requires
        a != b,
    ensures
        a.spec_var_name() != b.spec_var_name(),
{
    lemma_name_decodes(a);
    lemma_name_decodes(b);
}

/// A name begins with `fish_pager_color_` exactly when the variable is a
/// pager color; every other name begins with `fish_color_`.
#[verifier::rlimit(30)]
pub proof fn pager_prefix_marks_pager_colors(v: FishColorVar)
    ensures
        "fish_pager_color_"@.is_prefix_of(v.spec_var_name()) <==> v.is_pager(),
        !v.is_pager() ==> "fish_color_"@.is_prefix_of(v.spec_var_name()),
{
    reveal_strlit("fish_pager_color_");
    reveal_strlit("fish_color_");
    assert("fish_pager_color_"@.len() == 17);
    assert("fish_color_"@.len() == 11);
    match v {
        FishColorVar::Normal => {
            reveal_strlit("fish_color_normal");
            assert("fish_color_normal"@.len() == 17);
            assert("fish_color_normal"@[5] != "fish_pager_color_"@[5]);
            assert("fish_color_normal"@.subrange(0, 11) =~= "fish_color_"@);
        },
        FishColorVar::Command => {
            reveal_strlit("fish_color_command");
            assert("fish_color_command"@.len() == 18);
            assert("fish_color_command"@[5] != "fish_pager_color_"@[5]);
            assert("fish_color_command"@.subrange(0, 11) =~= "fish_color_"@);
        },
        FishColorVar::Keyword => {
            reveal_strlit("fish_color_keyword");
            assert("fish_color_keyword"@.len() == 18);
            assert("fish_color_keyword"@[5] != "fish_pager_color_"@[5]);
            assert("fish_color_keyword"@.subrange(0, 11) =~= "fish_color_"@);
        },
        FishColorVar::Quote => {
            reveal_strlit("fish_color_quote");
            assert("fish_color_quote"@.len() == 16);
            assert("fish_color_quote"@[5] != "fish_pager_color_"@[5]);
            assert("fish_color_quote"@.subrange(0, 11) =~= "fish_color_"@);
        },
        FishColorVar::Redirection => {
            reveal_strlit("fish_color_redirection");
            assert("fish_color_redirection"@.len() == 22);
            assert("fish_color_redirection"@[5] != "fish_pager_color_"@[5]);
            assert("fish_color_redirection"@.subrange(0, 11) =~= "fish_color_"@);
        },
        FishColorVar::EndOfCommand => {
            reveal_strlit("fish_color_end");
            assert("fish_color_end"@.len() == 14);
            assert("fish_color_end"@[5] != "fish_pager_color_"@[5]);
            assert("fish_color_end"@.subrange(0, 11) =~= "fish_color_"@);
        },
        FishColorVar::Error => {
            reveal_strlit("fish_color_error");
            assert("fish_color_error"@.len() == 16);
            assert("fish_color_error"@[5] != "fish_pager_color_"@[5]);
            assert("fish_color_error"@.subrange(0, 11) =~= "fish_color_"@);
        },
        FishColorVar::Param => {
            reveal_strlit("fish_color_param");
            assert("fish_color_param"@.len() == 16);
            assert("fish_color_param"@[5] != "fish_pager_color_"@[5]);
            assert("fish_color_param"@.subrange(0, 11) =~= "fish_color_"@);
        },
        FishColorVar::Option => {
            reveal_strlit("fish_color_option");
            assert("fish_color_option"@.len() == 17);
            assert("fish_color_option"@[5] != "fish_pager_color_"@[5]);
            assert("fish_color_option"@.subrange(0, 11) =~= "fish_color_"@);
        },
        FishColorVar::Comment => {
            reveal_strlit("fish_color_comment");
            assert("fish_color_comment"@.len() == 18);
            assert("fish_color_comment"@[5] != "fish_pager_color_"@[5]);
            assert("fish_color_comment"@.subrange(0, 11) =~= "fish_color_"@);
        },
        FishColorVar::Selection => {
            reveal_strlit("fish_color_selection");
            assert("fish_color_selection"@.len() == 20);
            assert("fish_color_selection"@[5] != "fish_pager_color_"@[5]);
            assert("fish_color_selection"@.subrange(0, 11) =~= "fish_color_"@);
        },
        FishColorVar::Operator => {
            reveal_strlit("fish_color_operator");
            assert("fish_color_operator"@.len() == 19);
            assert("fish_color_operator"@[5] != "fish_pager_color_"@[5]);
            assert("fish_color_operator"@.subrange(0, 11) =~= "fish_color_"@);
        },
        FishColorVar::Escape => {
            reveal_strlit("fish_color_escape");
            assert("fish_color_escape"@.len() == 17);
            assert("fish_color_escape"@[5] != "fish_pager_color_"@[5]);
            assert("fish_color_escape"@.subrange(0, 11) =~= "fish_color_"@);
        },
        FishColorVar::Autosuggestion => {
            reveal_strlit("fish_color_autosuggestion");
            assert("fish_color_autosuggestion"@.len() == 25);
            assert("fish_color_autosuggestion"@[5] != "fish_pager_color_"@[5]);
            assert("fish_color_autosuggestion"@.subrange(0, 11) =~= "fish_color_"@);
        },
        FishColorVar::MatchingParens => {
            reveal_strlit("fish_color_matching_paren");
            assert("fish_color_matching_paren"@.len() == 25);
            assert("fish_color_matching_paren"@[5] != "fish_pager_color_"@[5]);
            assert("fish_color_matching_paren"@.subrange(0, 11) =~= "fish_color_"@);
        },
        FishColorVar::HistoryCurrent => {
            reveal_strlit("fish_color_history_current");
            assert("fish_color_history_current"@.len() == 26);
            assert("fish_color_history_current"@[5] != "fish_pager_color_"@[5]);
            assert("fish_color_history_current"@.subrange(0, 11) =~= "fish_color_"@);
        },
        FishColorVar::SearchMatch => {
            reveal_strlit("fish_color_search_match");
            assert("fish_color_search_match"@.len() == 23);
            assert("fish_color_search_match"@[5] != "fish_pager_color_"@[5]);
            assert("fish_color_search_match"@.subrange(0, 11) =~= "fish_color_"@);
        },
        FishColorVar::ValidPath => {
            reveal_strlit("fish_color_valid_path");
            assert("fish_color_valid_path"@.len() == 21);
            assert("fish_color_valid_path"@[5] != "fish_pager_color_"@[5]);
            assert("fish_color_valid_path"@.subrange(0, 11) =~= "fish_color_"@);
        },
        FishColorVar::Cancel => {
            reveal_strlit("fish_color_cancel");
            assert("fish_color_cancel"@.len() == 17);
            assert("fish_color_cancel"@[5] != "fish_pager_color_"@[5]);
            assert("fish_color_cancel"@.subrange(0, 11) =~= "fish_color_"@);
        },
        FishColorVar::PagerProgress => {
            reveal_strlit("fish_pager_color_progress");
            assert("fish_pager_color_progress"@.len() == 25);
            assert("fish_pager_color_progress"@.subrange(0, 17) =~= "fish_pager_color_"@);
        },
        FishColorVar::PagerBackground => {
            reveal_strlit("fish_pager_color_background");
            assert("fish_pager_color_background"@.len() == 27);
            assert("fish_pager_color_background"@.subrange(0, 17) =~= "fish_pager_color_"@);
        },
        FishColorVar::PagerSecondaryBackground => {
            reveal_strlit("fish_pager_color_secondary_background");
            assert("fish_pager_color_secondary_background"@.len() == 37);
            assert("fish_pager_color_secondary_background"@.subrange(0, 17) =~= "fish_pager_color_"@);
        },
        FishColorVar::PagerSelectedBackground => {
            reveal_strlit("fish_pager_color_selected_background");
            assert("fish_pager_color_selected_background"@.len() == 36);
            assert("fish_pager_color_selected_background"@.subrange(0, 17) =~= "fish_pager_color_"@);
        },
        FishColorVar::PagerPrefix => {
            reveal_strlit("fish_pager_color_prefix");
            assert("fish_pager_color_prefix"@.len() == 23);
            assert("fish_pager_color_prefix"@.subrange(0, 17) =~= "fish_pager_color_"@);
        },
        FishColorVar::PagerCompletion => {
            reveal_strlit("fish_pager_color_completion");
            assert("fish_pager_color_completion"@.len() == 27);
            assert("fish_pager_color_completion"@.subrange(0, 17) =~= "fish_pager_color_"@);
        },
        FishColorVar::PagerDescription => {
            reveal_strlit("fish_pager_color_description");
            assert("fish_pager_color_description"@.len() == 28);
            assert("fish_pager_color_description"@.subrange(0, 17) =~= "fish_pager_color_"@);
        },
        FishColorVar::PagerSecondaryPrefix => {
            reveal_strlit("fish_pager_color_secondary_prefix");
            assert("fish_pager_color_secondary_prefix"@.len() == 33);
            assert("fish_pager_color_secondary_prefix"@.subrange(0, 17) =~= "fish_pager_color_"@);
        },
        FishColorVar::PagerSecondaryCompletion => {
            reveal_strlit("fish_pager_color_secondary_completion");
            assert("fish_pager_color_secondary_completion"@.len() == 37);
            assert("fish_pager_color_secondary_completion"@.subrange(0, 17) =~= "fish_pager_color_"@);
        },
        FishColorVar::PagerSecondaryDescription => {
            reveal_strlit("fish_pager_color_secondary_description");
            assert("fish_pager_color_secondary_description"@.len() == 38);
            assert("fish_pager_color_secondary_description"@.subrange(0, 17) =~= "fish_pager_color_"@);
        },
        FishColorVar::PagerSelectedPrefix => {
            reveal_strlit("fish_pager_color_selected_prefix");
            assert("fish_pager_color_selected_prefix"@.len() == 32);
            assert("fish_pager_color_selected_prefix"@.subrange(0, 17) =~= "fish_pager_color_"@);
        },
        FishColorVar::PagerSelectedCompletion => {
            reveal_strlit("fish_pager_color_selected_completion");
            assert("fish_pager_color_selected_completion"@.len() == 36);
            assert("fish_pager_color_selected_completion"@.subrange(0, 17) =~= "fish_pager_color_"@);
        },
        FishColorVar::PagerSelectedDescription => {
            reveal_strlit("fish_pager_color_selected_description");
            assert("fish_pager_color_selected_description"@.len() == 37);
            assert("fish_pager_color_selected_description"@.subrange(0, 17) =~= "fish_pager_color_"@);
        },
    }
}

/// Sets a single `fish_color_*` or `fish_pager_color_*` variable.
#[derive(Debug, Clone)]
pub struct FishColor {
    pub color_var: FishColorVar,
    /// Color value, e.g. `"brblue"`, `"#af87ff"`, `"normal --bold"`.
    pub value: String,
}

impl FishColor {
    pub fn new(color_var: FishColorVar, value: &str) -> (r: Self)
        ensures
            r.color_var == color_var,
            r.value@ == value@,
    {
        FishColor { color_var, value: owned(value) }
    }
}

impl Config for FishColor {
    open spec fn spec_render(&self, ctx: RenderContext) -> Seq<char> {
        ctx.spec_indent() + "set -g "@ + self.color_var.spec_var_name() + " "@ + quote_fish(self.value@)
    }

    fn render(&self, ctx: &RenderContext) -> (r: String) {
        let mut r = ctx.indent();
        r.append("set -g ");
        r.append(self.color_var.var_name());
        r.append(" ");
        let q = quote_fish_value(self.value.as_str());
        r.append(q.as_str());
        r
    }

    fn doc_comment(&self) -> (r: Option<&str>) {
        None
    }

    fn validate(&self) -> (r: Result<(), String>) {
        Ok(())
    }
}

} // verus!
