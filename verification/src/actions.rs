//! Decisions of the user-triggered, one-shot mutations and fetches: what to
//! submit, which failure text to surface for each settled call, and where to
//! navigate afterwards. The surrounding application issues the calls and
//! hands their results back in; every classification is made here.

use vstd::prelude::*;

use crate::api::{
    ApiCallError, Chat, ChatMember, ChatMessage, GetTokenResponseData, Response,
    SendMessageRequest, User,
};
use crate::guard::Route;
use crate::notify::{NotificationEntry, NotificationQueue, NotificationStyle};
use crate::texts;

verus! {

/// A classified, not yet enqueued notification.
#[derive(Debug)]
pub struct Notice {
    pub text: String,
    pub style: NotificationStyle,
}

impl Notice {
    /// An error notice with the given text.
    pub fn error(text: String) -> (n: Notice)
        ensures
            n.text == text,
            n.style == NotificationStyle::Error,
    {
        Notice { text, style: NotificationStyle::Error }
    }

    /// Appends this notice to the queue it is reported to.
    pub fn report(self, queue: &mut NotificationQueue) -> (id: u64)
        requires
            old(queue).wf(),
            old(queue).next_id < u64::MAX,
        ensures
            final(queue).wf(),
            id == old(queue).next_id,
            final(queue).entries@ == old(queue).entries@.push(
                NotificationEntry { id: old(queue).next_id, text: self.text, style: self.style },
            ),
    {
        queue.enqueue(self.text, self.style)
    }
}

/// Guards the send-message submit: an empty textarea issues no network call
/// at all; otherwise the request carries the content and no file references.
pub fn prepare_send_message(content: String) -> (r: Option<SendMessageRequest>)
    ensures
        content@.len() == 0 <==> r is None,
        r matches Some(req) ==> req.content == content && req.files@ == Seq::<String>::empty(),
{
    if content.as_str().is_empty() {
        Option::None
    } else {
        Option::Some(SendMessageRequest { content, files: Vec::new() })
    }
}

/// Classifies the settled send-message call: a server-reported failure and a
/// transport failure each surface their notice; success surfaces nothing.
pub fn send_message_settled(r: Result<Response<ChatMessage>, ApiCallError>) -> (notice: Option<
    Notice,
>)
    ensures
        match r {
            Ok(resp) => {
                if resp.ok {
                    notice is None
                } else {
                    notice matches Some(n) && n.text@ == texts::send_message_failed_text()
                        && n.style == NotificationStyle::Error
                }
            },
            Err(_) => notice matches Some(n) && n.text@ == texts::server_down_text() && n.style
                == NotificationStyle::Error,
        },
{
    match r {
        Ok(resp) => {
            if resp.ok {
                Option::None
            } else {
                Option::Some(Notice::error(texts::send_message_failed_message()))
            }
        },
        Err(_) => Option::Some(Notice::error(texts::server_down_message())),
    }
}

/// Classifies the settled add-member call: success closes the modal; a
/// conflict (code 409) surfaces the "already a member" variant, any other
/// server-reported failure the generic variant, and a transport failure the
/// unresponsive-server notice. A failure envelope always carries its error.
pub fn add_member_settled(r: Result<Response<ChatMember>, ApiCallError>) -> (res: (
    bool,
    Option<Notice>,
))
    requires
        r matches Ok(resp) ==> !resp.ok ==> resp.error is Some,
    ensures
        match r {
            Ok(resp) => {
                if resp.ok {
                    res.0 && res.1 is None
                } else {
                    res.1 matches Some(n) && !res.0 && n.style == NotificationStyle::Error
                        && n.text@ == (if resp.error->Some_0.code == 409 {
                        texts::already_member_text()
                    } else {
                        texts::add_member_failed_text()
                    })
                }
            },
            Err(_) => res.1 matches Some(n) && !res.0 && n.text@ == texts::server_down_text()
                && n.style == NotificationStyle::Error,
        },
{
    match r {
        Ok(resp) => {
            if resp.ok {
                (true, Option::None)
            } else {
                let notice = match resp.error {
                    Some(err) => {
                        if err.code == 409 {
                            Notice::error(texts::already_member_message())
                        } else {
                            Notice::error(texts::add_member_failed_message())
                        }
                    },
                    None => {
                        proof {
                            assert(false);
                        }
                        Notice::error(texts::add_member_failed_message())
                    },
                };
                (false, Option::Some(notice))
            }
        },
        Err(_) => (false, Option::Some(Notice::error(texts::server_down_message()))),
    }
}

/// Classifies the settled issue-token call: success navigates to the chats
/// view; a missing user (code 404), any other server-reported failure and a
/// transport failure each surface their text. A failure envelope always
/// carries its error.
pub fn login_settled(r: Result<Response<GetTokenResponseData>, ApiCallError>) -> (res: (
    Option<Route>,
    Option<Notice>,
))
    requires
        r matches Ok(resp) ==> !resp.ok ==> resp.error is Some,
    ensures
        match r {
            Ok(resp) => {
                if resp.ok {
                    res.0 == Option::Some(Route::Chats) && res.1 is None
                } else {
                    res.1 matches Some(n) && res.0 is None && n.style == NotificationStyle::Error
                        && n.text@ == (if resp.error->Some_0.code == 404 {
                        texts::no_such_user_text()
                    } else {
                        texts::unknown_error_text()
                    })
                }
            },
            Err(_) => res.1 matches Some(n) && res.0 is None && n.text@
                == texts::server_error_text() && n.style == NotificationStyle::Error,
        },
{
    match r {
        Ok(resp) => {
            if resp.ok {
                (Option::Some(Route::Chats), Option::None)
            } else {
                let notice = match resp.error {
                    Some(err) => {
                        if err.code == 404 {
                            Notice::error(texts::no_such_user_message())
                        } else {
                            Notice::error(texts::unknown_error_message())
                        }
                    },
                    None => {
                        proof {
                            assert(false);
                        }
                        Notice::error(texts::unknown_error_message())
                    },
                };
                (Option::None, Option::Some(notice))
            }
        },
        Err(_) => (Option::None, Option::Some(Notice::error(texts::server_error_message()))),
    }
}

/// Classifies the settled register call: success proceeds to the follow-up
/// issue-token call; a taken name (code 409), any other server-reported
/// failure and a transport failure each surface their text. A failure
/// envelope always carries its error.
pub fn register_settled(r: Result<Response<User>, ApiCallError>) -> (res: (bool, Option<Notice>))
    requires
        r matches Ok(resp) ==> !resp.ok ==> resp.error is Some,
    ensures
        match r {
            Ok(resp) => {
                if resp.ok {
                    res.0 && res.1 is None
                } else {
                    res.1 matches Some(n) && !res.0 && n.style == NotificationStyle::Error
                        && n.text@ == (if resp.error->Some_0.code == 409 {
                        texts::user_exists_text()
                    } else {
                        texts::unknown_error_text()
                    })
                }
            },
            Err(_) => res.1 matches Some(n) && !res.0 && n.text@ == texts::server_error_text()
                && n.style == NotificationStyle::Error,
        },
{
    match r {
        Ok(resp) => {
            if resp.ok {
                (true, Option::None)
            } else {
                let notice = match resp.error {
                    Some(err) => {
                        if err.code == 409 {
                            Notice::error(texts::user_exists_message())
                        } else {
                            Notice::error(texts::unknown_error_message())
                        }
                    },
                    None => {
                        proof {
                            assert(false);
                        }
                        Notice::error(texts::unknown_error_message())
                    },
                };
                (false, Option::Some(notice))
            }
        },
        Err(_) => (false, Option::Some(Notice::error(texts::server_error_message()))),
    }
}

/// Guards the create-chat submit: an empty name surfaces its notice and
/// issues no call.
pub fn validate_new_chat_name(name: &String) -> (notice: Option<Notice>)
    ensures
        name@.len() == 0 <==> notice is Some,
        notice matches Some(n) ==> n.text@ == texts::chat_not_created_text() && n.style
            == NotificationStyle::Error,
{
    if name.as_str().is_empty() {
        Option::Some(Notice::error(texts::chat_not_created_message()))
    } else {
        Option::None
    }
}

/// Classifies the settled create-chat call: on success, navigate to the new
/// chat if the caller asked for a redirect; a server-reported failure and a
/// transport failure each surface their notice. A success envelope always
/// carries its payload.
pub fn new_chat_settled(r: Result<Response<Chat>, ApiCallError>, redirect: bool) -> (res: (
    Option<Route>,
    Option<Notice>,
))
    requires
        r matches Ok(resp) ==> resp.ok ==> resp.data is Some,
    ensures
        match r {
            Ok(resp) => {
                if resp.ok {
                    res.1 is None && res.0 == (if redirect {
                        Option::Some(Route::Chat { id: resp.data->Some_0.id })
                    } else {
                        Option::<Route>::None
                    })
                } else {
                    res.1 matches Some(n) && res.0 is None && n.text@
                        == texts::generic_failure_text() && n.style == NotificationStyle::Error
                }
            },
            Err(_) => res.1 matches Some(n) && res.0 is None && n.text@
                == texts::server_down_text() && n.style == NotificationStyle::Error,
        },
{
    match r {
        Ok(resp) => {
            if resp.ok {
                let nav = if redirect {
                    match resp.data {
                        Some(chat) => Option::Some(Route::Chat { id: chat.id }),
                        None => {
                            proof {
                                assert(false);
                            }
                            Option::None
                        },
                    }
                } else {
                    Option::None
                };
                (nav, Option::None)
            } else {
                (Option::None, Option::Some(Notice::error(texts::generic_failure_message())))
            }
        },
        Err(_) => (Option::None, Option::Some(Notice::error(texts::server_down_message()))),
    }
}

/// Classifies the settled icon upload: success keeps the first stored file
/// name, if any; failures surface their notice. A success envelope always
/// carries its payload.
pub fn upload_icon_settled(r: Result<Response<Vec<String>>, ApiCallError>) -> (res: (
    Option<String>,
    Option<Notice>,
))
    requires
        r matches Ok(resp) ==> resp.ok ==> resp.data is Some,
    ensures
        match r {
            Ok(resp) => {
                if resp.ok {
                    res.1 is None && (if resp.data->Some_0@.len() > 0 {
                        res.0 matches Some(name) && name == resp.data->Some_0@[0]
                    } else {
                        res.0 is None
                    })
                } else {
                    res.1 matches Some(n) && res.0 is None && n.text@
                        == texts::generic_failure_text() && n.style == NotificationStyle::Error
                }
            },
            Err(_) => res.1 matches Some(n) && res.0 is None && n.text@
                == texts::server_down_text() && n.style == NotificationStyle::Error,
        },
{
    match r {
        Ok(resp) => {
            if resp.ok {
                let name = match resp.data {
                    Some(mut names) => {
                        if names.len() > 0 {
                            Option::Some(names.remove(0))
                        } else {
                            Option::None
                        }
                    },
                    None => {
                        proof {
                            assert(false);
                        }
                        Option::None
                    },
                };
                (name, Option::None)
            } else {
                (Option::None, Option::Some(Notice::error(texts::generic_failure_message())))
            }
        },
        Err(_) => (Option::None, Option::Some(Notice::error(texts::server_down_message()))),
    }
}

/// Classifies the settled new-bot call.
pub fn new_bot_settled(r: Result<Response<User>, ApiCallError>) -> (notice: Option<Notice>)
    ensures
        match r {
            Ok(resp) => {
                if resp.ok {
                    notice is None
                } else {
                    notice matches Some(n) && n.text@ == texts::generic_failure_text() && n.style
                        == NotificationStyle::Error
                }
            },
            Err(_) => notice matches Some(n) && n.text@ == texts::server_down_text() && n.style
                == NotificationStyle::Error,
        },
{
    match r {
        Ok(resp) => {
            if resp.ok {
                Option::None
            } else {
                Option::Some(Notice::error(texts::generic_failure_message()))
            }
        },
        Err(_) => Option::Some(Notice::error(texts::server_down_message())),
    }
}

/// Classifies the settled bot-token call: success hands the token out for
/// display. A success envelope always carries its payload.
pub fn bot_token_settled(r: Result<Response<GetTokenResponseData>, ApiCallError>) -> (res: (
    Option<String>,
    Option<Notice>,
))
    requires
        r matches Ok(resp) ==> resp.ok ==> resp.data is Some,
    ensures
        match r {
            Ok(resp) => {
                if resp.ok {
                    res.0 matches Some(token) && res.1 is None && token
                        == resp.data->Some_0.token
                } else {
                    res.1 matches Some(n) && res.0 is None && n.text@
                        == texts::bot_token_failed_text() && n.style == NotificationStyle::Error
                }
            },
            Err(_) => res.1 matches Some(n) && res.0 is None && n.text@
                == texts::server_down_text() && n.style == NotificationStyle::Error,
        },
{
    match r {
        Ok(resp) => {
            if resp.ok {
                match resp.data {
                    Some(data) => (Option::Some(data.token), Option::None),
                    None => {
                        proof {
                            assert(false);
                        }
                        (Option::None, Option::None)
                    },
                }
            } else {
                (Option::None, Option::Some(Notice::error(texts::bot_token_failed_message())))
            }
        },
        Err(_) => (Option::None, Option::Some(Notice::error(texts::server_down_message()))),
    }
}

/// Classifies the settled delete-bot or kick-member call; both surface the
/// same text on a server-reported failure.
pub fn delete_settled(r: Result<Response<()>, ApiCallError>) -> (notice: Option<Notice>)
    ensures
        match r {
            Ok(resp) => {
                if resp.ok {
                    notice is None
                } else {
                    notice matches Some(n) && n.text@ == texts::delete_failed_text() && n.style
                        == NotificationStyle::Error
                }
            },
            Err(_) => notice matches Some(n) && n.text@ == texts::server_down_text() && n.style
                == NotificationStyle::Error,
        },
{
    match r {
        Ok(resp) => {
            if resp.ok {
                Option::None
            } else {
                Option::Some(Notice::error(texts::delete_failed_message()))
            }
        },
        Err(_) => Option::Some(Notice::error(texts::server_down_message())),
    }
}

/// Guards the member search: an empty query issues no call.
pub fn search_allowed(username: &String) -> (b: bool)
    ensures
        b <==> username@.len() > 0,
{
    !username.as_str().is_empty()
}

/// Classifies the settled one-shot chat-info fetch: success stores the
/// payload as it came; failures leave the stored chat untouched and surface
/// their notice.
pub fn chat_info_settled(r: Result<Response<Chat>, ApiCallError>) -> (res: (
    Option<Chat>,
    Option<Notice>,
))
    ensures
        match r {
            Ok(resp) => {
                if resp.ok {
                    res.0 == resp.data && res.1 is None
                } else {
                    res.1 matches Some(n) && res.0 is None && n.text@
                        == texts::fetch_chat_info_failed_text() && n.style
                        == NotificationStyle::Error
                }
            },
            Err(_) => res.1 matches Some(n) && res.0 is None && n.text@
                == texts::server_down_text() && n.style == NotificationStyle::Error,
        },
{
    match r {
        Ok(resp) => {
            if resp.ok {
                (resp.data, Option::None)
            } else {
                (Option::None, Option::Some(Notice::error(texts::fetch_chat_info_failed_message())))
            }
        },
        Err(_) => (Option::None, Option::Some(Notice::error(texts::server_down_message()))),
    }
}

/// Classifies the settled one-shot own-membership fetch.
pub fn self_member_settled(r: Result<Response<ChatMember>, ApiCallError>) -> (res: (
    Option<ChatMember>,
    Option<Notice>,
))
    ensures
        match r {
            Ok(resp) => {
                if resp.ok {
                    res.0 == resp.data && res.1 is None
                } else {
                    res.1 matches Some(n) && res.0 is None && n.text@
                        == texts::fetch_self_member_failed_text() && n.style
                        == NotificationStyle::Error
                }
            },
            Err(_) => res.1 matches Some(n) && res.0 is None && n.text@
                == texts::server_down_text() && n.style == NotificationStyle::Error,
        },
{
    match r {
        Ok(resp) => {
            if resp.ok {
                (resp.data, Option::None)
            } else {
                (
                    Option::None,
                    Option::Some(Notice::error(texts::fetch_self_member_failed_message())),
                )
            }
        },
        Err(_) => (Option::None, Option::Some(Notice::error(texts::server_down_message()))),
    }
}

/// Combines the settled user search and bot search into one candidate list:
/// the found users followed by the found bots, each half empty if its call
/// failed. A failure of either call surfaces a notice; when both fail, the
/// bot search's notice wins, as the later of the two reports. A success
/// envelope always carries its payload.
pub fn merge_search_results(
    users: Result<Response<Vec<User>>, ApiCallError>,
    bots: Result<Response<Vec<User>>, ApiCallError>,
) -> (res: (Vec<User>, Option<Notice>))
    requires
        users matches Ok(resp) ==> resp.ok ==> resp.data is Some,
        bots matches Ok(resp) ==> resp.ok ==> resp.data is Some,
    ensures
        res.0@ == search_half(users) + search_half(bots),
        res.1 is Some <==> search_notice_needed(users) || search_notice_needed(bots),
        res.1 matches Some(n) ==> n.style == NotificationStyle::Error && n.text@ == (
        if search_notice_needed(bots) {
            search_notice_text(bots)
        } else {
            search_notice_text(users)
        }),
{
    let (mut list, users_notice): (Vec<User>, Option<Notice>) = match users {
        Ok(resp) => {
            if resp.ok {
                match resp.data {
                    Some(found) => (found, Option::None),
                    None => {
                        proof {
                            assert(false);
                        }
                        (Vec::new(), Option::None)
                    },
                }
            } else {
                (Vec::new(), Option::Some(Notice::error(texts::search_failed_message())))
            }
        },
        Err(_) => (Vec::new(), Option::Some(Notice::error(texts::server_down_message()))),
    };
    let (mut found_bots, bots_notice): (Vec<User>, Option<Notice>) = match bots {
        Ok(resp) => {
            if resp.ok {
                match resp.data {
                    Some(found) => (found, Option::None),
                    None => {
                        proof {
                            assert(false);
                        }
                        (Vec::new(), Option::None)
                    },
                }
            } else {
                (Vec::new(), Option::Some(Notice::error(texts::search_failed_message())))
            }
        },
        Err(_) => (Vec::new(), Option::Some(Notice::error(texts::server_down_message()))),
    };
    list.append(&mut found_bots);
    let notice = match bots_notice {
        Some(n) => Option::Some(n),
        None => users_notice,
    };
    (list, notice)
}

/// The records one search call contributes: its payload on success, nothing
/// on any failure.
pub open spec fn search_half(r: Result<Response<Vec<User>>, ApiCallError>) -> Seq<User> {
    match r {
        Ok(resp) => if resp.ok {
            resp.data->Some_0@
        } else {
            Seq::<User>::empty()
        },
        Err(_) => Seq::<User>::empty(),
    }
}

/// Whether one search call's outcome surfaces a notice.
pub open spec fn search_notice_needed(r: Result<Response<Vec<User>>, ApiCallError>) -> bool {
    match r {
        Ok(resp) => !resp.ok,
        Err(_) => true,
    }
}

/// The text the notice of one failed search call reads; immaterial for a
/// successful call, which surfaces none.
pub open spec fn search_notice_text(r: Result<Response<Vec<User>>, ApiCallError>) -> Seq<char> {
    match r {
        Ok(_) => texts::search_failed_text(),
        Err(_) => texts::server_down_text(),
    }
}

} // verus!
