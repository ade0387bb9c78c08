use vstd::prelude::*;
use vstd::string::StringSliceAdditionalSpecFns;
use vstd::string::StrSliceExecFns;
use vstd::string::StringExecFns;
use vstd::utf8::{valid_utf8, decode_utf8, encode_utf8};
use crate::chats::{ChatDirectory, ChatID, spec_find_channel, spec_find_conversation, spec_opt_str};
use crate::cipher::{PayloadCipher, spec_payload_decrypt};
use crate::crypto::{rsa_public_decrypt_raw, sha256, string_from_utf8};
use crate::envelope::RSAPublicKey;
use crate::errors::Errors;
use crate::hexstr::{hex_decode, spec_hex_decode};
use crate::json::bytes_eq;
use crate::keystore::ChatKeyStore;
use crate::state::EncryptionState;

verus! {

/// Who sent a message: a resolved person record, or only a raw name the
/// directory could not resolve.
#[derive(Clone)]
pub enum PossibleSender {
    MessageSender(DetailedPersonInfo),
    Raw(String),
}

/// What a message replies to.
#[derive(Clone)]
pub enum PossibleReply {
    MessageReplyTo(MessageReplyTo),
    Integer(u64),
}

#[derive(Clone)]
pub struct MessageReplyTo {
    pub message_id: u64,
    pub message_hash: Option<String>,
    pub message_verification: Option<String>,
}

#[derive(Clone)]
pub struct MessageSeen {
    pub user_id: Option<String>,
    pub first_name: Option<String>,
    pub last_name: Option<String>,
    pub time: u64,
}

#[derive(Clone)]
pub struct DetailedPersonInfo {
    pub id: Option<String>,
    pub first_name: Option<String>,
    pub last_name: Option<String>,
    pub image: Option<String>,
    pub active: Option<String>,
    pub deleted: Option<String>,
    pub allows_voip_calls: bool,
    pub mx_user_id: Option<String>,
    pub federated: bool,
    pub online: bool,
    pub public_key: Option<String>,
    pub public_key_signature: Option<String>,
    pub public_signing_key: Option<String>,
    pub public_key_ca_signature: Option<String>,
    pub language: Option<String>,
}

#[derive(Clone)]
pub struct FileDimensions {
    pub height: Option<String>,
    pub width: Option<String>,
}

/// An uploaded file's record; its bytes come separately, raw.
#[derive(Clone)]
pub struct File {
    pub base_64: Option<String>,
    pub deleted: Option<String>,
    pub dimensions: FileDimensions,
    pub e2e_iv: Option<String>,
    pub encrypted: bool,
    pub ext: Option<String>,
    pub folder_type: Option<String>,
    pub id: String,
    pub last_download: Option<String>,
    pub md5: Option<String>,
    pub mime: Option<String>,
    pub modified: Option<String>,
    pub name: String,
    pub owner_id: Option<String>,
    pub permission: Option<String>,
    pub size_byte: Option<String>,
    pub status: Option<String>,
    pub times_downloaded: Option<String>,
    pub type_id: Option<String>,
    pub uploaded: Option<String>,
}

/// A message as the server delivers it: `text` holds hex ciphertext while
/// `encrypted` is true, plaintext otherwise; `original_text` keeps the wire
/// text once a decryptor rewrites `text`.
#[derive(Clone)]
pub struct Message {
    pub id: u64,
    pub text: Option<String>,
    pub original_text: Option<String>,
    pub conversation_id: Option<u64>,
    pub channel_id: Option<u64>,
    pub thread_id: Option<u64>,
    pub hash: Option<String>,
    pub verification: Option<String>,
    pub time: Option<String>,
    pub micro_time: Option<String>,
    pub sender: PossibleSender,
    pub device_id: Option<String>,
    pub kind: Option<String>,
    pub is_forwarded: Option<bool>,
    pub metainfo: Option<String>,
    pub has_file_attached: Option<bool>,
    pub files: Option<Vec<File>>,
    pub seen: Option<Vec<MessageSeen>>,
    pub unread: Option<bool>,
    pub encrypted: Option<bool>,
    pub iv: Option<String>,
    pub reply_to: Option<PossibleReply>,
}

/// A message's text is already plaintext when it is not marked encrypted,
/// or empty.
pub open spec fn spec_is_plain(m: &Message) -> bool {
    !(m.encrypted == Some(true)) || m.text is None || (m.text matches Some(t) && t@.len() == 0)
}

/// The view of a hex IV field: `None` where none is given, the decode
/// otherwise (`Some(None)` marking a field that is not hex).
pub open spec fn spec_iv_bytes(iv: Option<&String>) -> Option<Option<Seq<u8>>> {
    match iv {
        None => None,
        Some(s) => Some(spec_hex_decode(encode_utf8(s@))),
    }
}

/// Decrypts one payload for `chat`, mirroring the session's flow: a chat
/// whose key is already resident decrypts with it; otherwise the directory
/// decides — an unknown chat is a `ValueError`, an unencrypted chat's data
/// passes through unchanged, and an encrypted chat's key is unwrapped and
/// cached first. The ciphertext and the decrypted bytes are related exactly
/// through `spec_payload_decrypt` under the cached key.
pub fn decrypt_payload(
    directory: &ChatDirectory,
    store: &mut ChatKeyStore,
    encryption_state: &EncryptionState,
    chat: &ChatID,
    data: Vec<u8>,
    iv: Option<&String>,
) -> (r: Result<Vec<u8>, Errors>)
    requires
        old(store).wf(),
    ensures
        final(store).wf(),
        (!old(store)@.contains_key(chat@) && (if chat.kind is Channel {
            spec_find_channel(directory.channels@, chat.id@) is None
        } else {
            spec_find_conversation(directory.conversations@, chat.id@) is None
        }) ==> (r matches Err(e) && e is ValueError && final(store)@ == old(store)@)),
        (!old(store)@.contains_key(chat@) && (if chat.kind is Channel {
            spec_find_channel(directory.channels@, chat.id@) matches Some(c) && !c.encrypted
        } else {
            spec_find_conversation(directory.conversations@, chat.id@) matches Some(c)
                && !c.encrypted
        }) ==> (r matches Ok(v) && v@ == data@ && final(store)@ == old(store)@)),
        ((r is Ok && final(store)@.contains_key(chat@)) ==> ({
            let v = r->Ok_0;
            match spec_iv_bytes(iv) {
                Some(Some(ivb)) => spec_payload_decrypt(final(store)@[chat@], Some(ivb), data@)
                    == Some(v@),
                None => spec_payload_decrypt(final(store)@[chat@], None, data@) == Some(v@),
                Some(None) => false,
            }
        })),
        (old(store)@.contains_key(chat@) ==> final(store)@ == old(store)@),
        (old(store)@.contains_key(chat@) ==> ({
            let key = old(store)@[chat@];
            match spec_iv_bytes(iv) {
                Some(None) => (r matches Err(e) && e is HexError),
                Some(Some(ivb)) => match spec_payload_decrypt(key, Some(ivb), data@) {
                    Some(pt) => (r matches Ok(v) && v@ == pt),
                    None => (r matches Err(e) && e is EncryptionError),
                },
                None => (r matches Err(e) && e is EncryptionError),
            }
        })),
        ((!old(store)@.contains_key(chat@) && (if chat.kind is Channel {
            spec_find_channel(directory.channels@, chat.id@) matches Some(c) && c.encrypted
                && c.key is None
        } else {
            spec_find_conversation(directory.conversations@, chat.id@) matches Some(c)
                && c.encrypted && c.key is None
        })) ==> (r matches Err(e) && e is ValueError && final(store)@ == old(store)@)),
        (final(store)@ == old(store)@ || (!old(store)@.contains_key(chat@)
            && final(store)@.contains_key(chat@) && final(store)@ == old(store)@.insert(
            chat@,
            final(store)@[chat@],
        ))),
        ((!old(store)@.contains_key(chat@) && (if chat.kind is Channel {
            spec_find_channel(directory.channels@, chat.id@) matches Some(c) && c.encrypted
        } else {
            spec_find_conversation(directory.conversations@, chat.id@) matches Some(c)
                && c.encrypted
        }) && r is Ok) ==> final(store)@.contains_key(chat@)),
        ((r is Ok && !final(store)@.contains_key(chat@)) ==> (r->Ok_0@ == data@ && final(store)@
            == old(store)@)),
        (r matches Err(e) ==> e is ValueError || e is Base64Error || e is HexError
            || e is EncryptionError),
{
    if !store.contains(chat) {
        let meta = directory.chat_meta(chat)?;
        if !meta.0 {
            return Ok(data);
        }
        let wrapped = meta.1;
        let wrapped_ref = match &wrapped {
            Some(w) => Some(w),
            None => None,
        };
        let unwrapped = store.get_or_unwrap(chat, wrapped_ref, true, encryption_state)?;
        proof {
            assert(unwrapped matches Some(_));
        }
    }
    let iv_bytes = match iv {
        None => None,
        Some(s) => Some(hex_decode(s.as_str())?),
    };
    match store.get(chat) {
        Some(key) => {
            let iv_ref = match &iv_bytes {
                Some(v) => Some(v),
                None => None,
            };
            PayloadCipher::decrypt(key.as_slice(), iv_ref, data.as_slice())
        },
        None => {
            proof {
                assert(false);
            }
            Err(Errors::ValueError(String::from_str("key is not resident")))
        },
    }
}

/// Decrypts a message's text, mirroring the read path: a plain message's
/// text comes back unchanged whatever the key store holds; an encrypted
/// one's hex text is decoded, decrypted for its chat, and read as UTF-8.
/// Where a key was used (the chat's key is resident afterwards), the
/// returned string is exactly the UTF-8 decoding of the AES decryption of
/// the hex-decoded text under that key; where the directory marks the chat
/// unencrypted, it is the UTF-8 decoding of the hex-decoded text itself.
pub fn decrypt_message_text(
    directory: &ChatDirectory,
    store: &mut ChatKeyStore,
    encryption_state: &EncryptionState,
    chat: &ChatID,
    message: &Message,
) -> (r: Result<Option<String>, Errors>)
    requires
        old(store).wf(),
    ensures
        final(store).wf(),
        (spec_is_plain(message) ==> (r matches Ok(o) && spec_opt_str(o) == spec_opt_str(
            message.text,
        ) && final(store)@ == old(store)@)),
        (!spec_is_plain(message) && (message.text matches Some(t) && spec_hex_decode(
            encode_utf8(t@),
        ) is None) ==> (r matches Err(e) && e is HexError)),
        ((!spec_is_plain(message) && r is Ok) ==> ({
            let o = r->Ok_0;
            &&& o is Some
            &&& message.text is Some
            &&& spec_hex_decode(encode_utf8(message.text->0@)) is Some
            &&& ({
                let s = o->0;
                let data = spec_hex_decode(encode_utf8(message.text->0@))->0;
                if final(store)@.contains_key(chat@) {
                    exists|pt: Seq<u8>|
                        {
                            &&& spec_payload_decrypt(
                                final(store)@[chat@],
                                match message.iv {
                                    Some(v) => match spec_hex_decode(encode_utf8(v@)) {
                                        Some(ivb) => Some(ivb),
                                        None => None,
                                    },
                                    None => None,
                                },
                                data,
                            ) == Some(pt)
                            &&& valid_utf8(pt)
                            &&& s@ == decode_utf8(pt)
                        }
                } else {
                    valid_utf8(data) && s@ == decode_utf8(data)
                }
            })
        })),
        ((!spec_is_plain(message) && (old(store)@.contains_key(chat@) || (if chat.kind is Channel {
            spec_find_channel(directory.channels@, chat.id@) matches Some(c) && c.encrypted
        } else {
            spec_find_conversation(directory.conversations@, chat.id@) matches Some(c)
                && c.encrypted
        })) && r is Ok) ==> final(store)@.contains_key(chat@)),
        ((!spec_is_plain(message) && old(store)@.contains_key(chat@)) ==> ({
            let key = old(store)@[chat@];
            match message.text {
                Some(t) => match spec_hex_decode(encode_utf8(t@)) {
                    None => (r matches Err(e) && e is HexError),
                    Some(data) => match message.iv {
                        None => (r matches Err(e) && e is EncryptionError),
                        Some(ivs) => match spec_hex_decode(encode_utf8(ivs@)) {
                            None => (r matches Err(e) && e is HexError),
                            Some(ivb) => match spec_payload_decrypt(key, Some(ivb), data) {
                                None => (r matches Err(e) && e is EncryptionError),
                                Some(pt) => if valid_utf8(pt) {
                                    (r matches Ok(o) && o matches Some(s) && s@ == decode_utf8(
                                        pt,
                                    ))
                                } else {
                                    (r matches Err(e) && e is StringDecodeError)
                                },
                            },
                        },
                    },
                },
                None => true,
            }
        })),
        (r matches Err(e) ==> e is ValueError || e is Base64Error || e is HexError
            || e is EncryptionError || e is StringDecodeError),
{
    let plain = match &message.text {
        None => true,
        Some(t) => !(matches!(message.encrypted, Some(true))) || t.as_str().unicode_len() == 0,
    };
    if plain {
        let text = match &message.text {
            Some(t) => Some(t.clone()),
            None => None,
        };
        return Ok(text);
    }
    let text = match &message.text {
        Some(t) => t,
        None => {
            proof {
                assert(false);
            }
            return Err(Errors::ValueError(String::from_str("text is absent")));
        },
    };
    let data = hex_decode(text.as_str())?;
    let iv = match &message.iv {
        Some(v) => Some(v),
        None => None,
    };
    let decrypted = decrypt_payload(directory, store, encryption_state, chat, data, iv)?;
    let ghost dv = decrypted@;
    match string_from_utf8(decrypted) {
        Ok(s) => {
            proof {
                if store@.contains_key(chat@) {
                    assert(spec_payload_decrypt(
                        store@[chat@],
                        match message.iv {
                            Some(v) => match spec_hex_decode(encode_utf8(v@)) {
                                Some(ivb) => Some(ivb),
                                None => None,
                            },
                            None => None,
                        },
                        spec_hex_decode(encode_utf8(message.text->0@))->0,
                    ) == Some(dv) && valid_utf8(dv) && s@ == decode_utf8(dv));
                }
            }
            Ok(Some(s))
        },
        Err(e) => Err(e),
    }
}

/// Decrypts a downloaded file's raw bytes: a file not marked encrypted
/// passes through unchanged whatever the key store or directory hold;
/// otherwise the bytes are decrypted for the chat under the file's own IV.
pub fn decrypt_file(
    directory: &ChatDirectory,
    store: &mut ChatKeyStore,
    encryption_state: &EncryptionState,
    chat: &ChatID,
    file: &File,
    raw_bytes: Vec<u8>,
) -> (r: Result<Vec<u8>, Errors>)
    requires
        old(store).wf(),
    ensures
        final(store).wf(),
        (!file.encrypted ==> (r matches Ok(v) && v@ == raw_bytes@ && final(store)@ == old(
            store,
        )@)),
        ((file.encrypted && r is Ok && final(store)@.contains_key(chat@)) ==> ({
            let v = r->Ok_0;
            match file.e2e_iv {
                Some(s) => match spec_hex_decode(encode_utf8(s@)) {
                    Some(ivb) => spec_payload_decrypt(final(store)@[chat@], Some(ivb), raw_bytes@)
                        == Some(v@),
                    None => false,
                },
                None => spec_payload_decrypt(final(store)@[chat@], None, raw_bytes@) == Some(v@),
            }
        })),
        ((file.encrypted && (old(store)@.contains_key(chat@) || (if chat.kind is Channel {
            spec_find_channel(directory.channels@, chat.id@) matches Some(c) && c.encrypted
        } else {
            spec_find_conversation(directory.conversations@, chat.id@) matches Some(c)
                && c.encrypted
        })) && r is Ok) ==> final(store)@.contains_key(chat@)),
        ((file.encrypted && old(store)@.contains_key(chat@)) ==> ({
            let key = old(store)@[chat@];
            match file.e2e_iv {
                None => (r matches Err(e) && e is EncryptionError),
                Some(s) => match spec_hex_decode(encode_utf8(s@)) {
                    None => (r matches Err(e) && e is HexError),
                    Some(ivb) => match spec_payload_decrypt(key, Some(ivb), raw_bytes@) {
                        Some(pt) => (r matches Ok(v) && v@ == pt),
                        None => (r matches Err(e) && e is EncryptionError),
                    },
                },
            }
        })),
        (r matches Err(e) ==> e is ValueError || e is Base64Error || e is HexError
            || e is EncryptionError),
{
    if !file.encrypted {
        return Ok(raw_bytes);
    }
    let iv = match &file.e2e_iv {
        Some(s) => Some(s),
        None => None,
    };
    decrypt_payload(directory, store, encryption_state, chat, raw_bytes, iv)
}

/// What decrypting a message's text under a known 32-byte chat key yields:
/// a plain message keeps its text; an encrypted one's hex text must decode,
/// decrypt under its own hex IV, and read as UTF-8. `None` marks a message
/// the read path must reject.
pub open spec fn spec_message_text_with_key(key: Seq<u8>, m: Message) -> Option<
    Option<Seq<char>>,
> {
    if spec_is_plain(&m) {
        Some(spec_opt_str(m.text))
    } else {
        match spec_hex_decode(encode_utf8(m.text->0@)) {
            None => None,
            Some(data) => match m.iv {
                None => None,
                Some(ivs) => match spec_hex_decode(encode_utf8(ivs@)) {
                    None => None,
                    Some(ivb) => match spec_payload_decrypt(key, Some(ivb), data) {
                        None => None,
                        Some(pt) => if valid_utf8(pt) {
                            Some(Some(decode_utf8(pt)))
                        } else {
                            None
                        },
                    },
                },
            },
        }
    }
}

/// Rewrites one message under a known chat key: `original_text` keeps the
/// wire text, `text` becomes the decrypted string, everything else stays.
fn decrypt_message_with_key(key: &Vec<u8>, m: Message) -> (r: Result<Message, Errors>)
    ensures
        (spec_message_text_with_key(key@, m) matches Some(t) ==> (r matches Ok(out) && spec_opt_str(
            out.text,
        ) == t && spec_opt_str(out.original_text) == spec_opt_str(m.text) && out == (Message {
            text: out.text,
            original_text: out.original_text,
            ..m
        }))),
        (spec_message_text_with_key(key@, m) is None ==> (r matches Err(e) && (e is HexError
            || e is EncryptionError || e is StringDecodeError))),
{
    let original_text = match &m.text {
        Some(t) => Some(t.clone()),
        None => None,
    };
    let plain = match &m.text {
        None => true,
        Some(t) => !(matches!(m.encrypted, Some(true))) || t.as_str().unicode_len() == 0,
    };
    if plain {
        return Ok(Message { original_text, ..m });
    }
    let data = match &m.text {
        Some(t) => hex_decode(t.as_str())?,
        None => {
            proof {
                assert(false);
            }
            return Err(Errors::HexError(String::from_str("text is absent")));
        },
    };
    let iv = match &m.iv {
        Some(ivs) => Some(hex_decode(ivs.as_str())?),
        None => None,
    };
    let iv_ref = match &iv {
        Some(v) => Some(v),
        None => None,
    };
    let decrypted = PayloadCipher::decrypt(key.as_slice(), iv_ref, data.as_slice())?;
    let text = string_from_utf8(decrypted)?;
    Ok(Message { text: Some(text), original_text, ..m })
}

/// Rewrites a fetched page of messages: every message's `original_text`
/// keeps its wire text; with a chat key at hand every encrypted message's
/// `text` becomes its decrypted string, and the first message the key
/// cannot open fails the whole page.
pub fn decrypt_messages(key: Option<Vec<u8>>, messages: Vec<Message>) -> (r: Result<
    Vec<Message>,
    Errors,
>)
    ensures
        (key is None ==> (r matches Ok(out) && out@.len() == messages@.len() && (forall|i: int|
            0 <= i < messages@.len() ==> (spec_opt_str(#[trigger] out@[i].original_text)
                == spec_opt_str(messages@[i].text) && spec_opt_str(out@[i].text) == spec_opt_str(
                messages@[i].text,
            ) && out@[i] == (Message {
                text: out@[i].text,
                original_text: out@[i].original_text,
                ..messages@[i]
            }))))),
        ((key is Some && r is Ok) ==> ({
            let out = r->Ok_0;
            let k = key->0@;
            &&& out@.len() == messages@.len()
            &&& forall|i: int|
                0 <= i < messages@.len() ==> (spec_message_text_with_key(k, messages@[i]) is Some
                    && spec_opt_str(#[trigger] out@[i].text) == spec_message_text_with_key(
                    k,
                    messages@[i],
                )->0 && spec_opt_str(out@[i].original_text) == spec_opt_str(messages@[i].text)
                    && out@[i] == (Message {
                    text: out@[i].text,
                    original_text: out@[i].original_text,
                    ..messages@[i]
                }))
        })),
        ((key is Some && r is Err) ==> exists|i: int|
            0 <= i < messages@.len() && spec_message_text_with_key(key->0@, #[trigger] messages@[i])
                is None),
        (r matches Err(e) ==> (e is HexError || e is EncryptionError || e is StringDecodeError)),
{
    let ghost orig = messages@;
    let mut rest = messages;
    let mut out: Vec<Message> = Vec::new();
    match &key {
        None => {
            while rest.len() > 0
                invariant
                    orig == messages@,
                    out@.len() + rest@.len() == orig.len(),
                    rest@ == orig.skip(out@.len() as int),
                    forall|i: int|
                        0 <= i < out@.len() ==> (spec_opt_str(#[trigger] out@[i].original_text)
                            == spec_opt_str(orig[i].text) && spec_opt_str(out@[i].text)
                            == spec_opt_str(orig[i].text) && out@[i] == (Message {
                            text: out@[i].text,
                            original_text: out@[i].original_text,
                            ..orig[i]
                        })),
                decreases rest@.len(),
            {
                let m = rest.remove(0);
                proof {
                    assert(m == orig[out@.len() as int]);
                }
                let original_text = match &m.text {
                    Some(t) => Some(t.clone()),
                    None => None,
                };
                out.push(Message { original_text, ..m });
                proof {
                    assert(rest@ =~= orig.skip(out@.len() as int));
                }
            }
            Ok(out)
        },
        Some(k) => {
            while rest.len() > 0
                invariant
                    orig == messages@,
                    key matches Some(kk) && kk == k,
                    out@.len() + rest@.len() == orig.len(),
                    rest@ == orig.skip(out@.len() as int),
                    forall|i: int|
                        0 <= i < out@.len() ==> (spec_message_text_with_key(k@, orig[i]) is Some
                            && spec_opt_str(#[trigger] out@[i].text) == spec_message_text_with_key(
                            k@,
                            orig[i],
                        )->0 && spec_opt_str(out@[i].original_text) == spec_opt_str(orig[i].text)
                            && out@[i] == (Message {
                            text: out@[i].text,
                            original_text: out@[i].original_text,
                            ..orig[i]
                        })),
                decreases rest@.len(),
            {
                let ghost at = out@.len() as int;
                let m = rest.remove(0);
                proof {
                    assert(m == orig[at]);
                }
                let decrypted = match decrypt_message_with_key(k, m) {
                    Ok(d) => d,
                    Err(e) => {
                        proof {
                            assert(spec_message_text_with_key(
                                key->0@,
                                #[trigger] messages@[at],
                            ) is None);
                        }
                        return Err(e);
                    },
                };
                out.push(decrypted);
                proof {
                    assert(rest@ =~= orig.skip(out@.len() as int));
                }
            }
            Ok(out)
        },
    }
}

/// Decrypts one downloaded file's bytes under an already-resolved chat key,
/// the shape the blocking download endpoint uses: without a key, or for a
/// file not marked encrypted, the bytes pass through unchanged; otherwise
/// the file's hex IV and the key open them, with every outcome pinned.
pub fn decrypt_file_with_key(key: Option<&Vec<u8>>, file: &File, raw_bytes: Vec<u8>) -> (r: Result<
    Vec<u8>,
    Errors,
>)
    ensures
        ((!file.encrypted || key is None) ==> (r matches Ok(v) && v@ == raw_bytes@)),
        ((file.encrypted && key is Some) ==> ({
            let k = key->0@;
            match file.e2e_iv {
                None => (r matches Err(e) && e is EncryptionError),
                Some(s) => match spec_hex_decode(encode_utf8(s@)) {
                    None => (r matches Err(e) && e is HexError),
                    Some(ivb) => match spec_payload_decrypt(k, Some(ivb), raw_bytes@) {
                        Some(pt) => (r matches Ok(v) && v@ == pt),
                        None => (r matches Err(e) && e is EncryptionError),
                    },
                },
            }
        })),
{
    let k = match key {
        Some(k) => k,
        None => {
            return Ok(raw_bytes);
        },
    };
    if !file.encrypted {
        return Ok(raw_bytes);
    }
    let iv = match &file.e2e_iv {
        Some(s) => Some(hex_decode(s.as_str())?),
        None => None,
    };
    let iv_ref = match &iv {
        Some(v) => Some(v),
        None => None,
    };
    PayloadCipher::decrypt(k.as_slice(), iv_ref, raw_bytes.as_slice())
}

/// The id under which a signed message's sender must be resolved: `None`
/// where the message carries no verification tag (nothing to verify), the
/// sender's user id otherwise. A signed message whose sender is only a raw
/// name cannot be verified.
pub fn verification_sender(message: &Message) -> (r: Result<Option<String>, Errors>)
    ensures
        (message.verification is None ==> (r matches Ok(o) && o is None)),
        ((message.verification is Some && message.sender is MessageSender
            && message.sender->MessageSender_0.id is Some) ==> (r is Ok && r->Ok_0 is Some
            && r->Ok_0->0@ == message.sender->MessageSender_0.id->0@)),
        ((message.verification is Some && (message.sender is Raw || (
        message.sender is MessageSender && message.sender->MessageSender_0.id is None))) ==> (
        r matches Err(e) && e is OtherErrors)),
{
    if message.verification.is_none() {
        return Ok(None);
    }
    match &message.sender {
        PossibleSender::MessageSender(p) => match &p.id {
            Some(id) => Ok(Some(id.clone())),
            None => Err(Errors::OtherErrors(String::from_str("Can't verify hash of unknown sender."))),
        },
        PossibleSender::Raw(_) => Err(
            Errors::OtherErrors(String::from_str("Can't verify hash of unknown sender.")),
        ),
    }
}

/// The bytes a message's integrity tag signs: the original hex ciphertext
/// bytes where the message is encrypted, the original text itself where it
/// is not. `None` where the message misses its original text, or its
/// ciphertext is not hex.
pub open spec fn spec_signed_content(m: &Message) -> Option<Seq<u8>> {
    match m.original_text {
        None => None,
        Some(t) => if m.encrypted == Some(true) {
            spec_hex_decode(encode_utf8(t@))
        } else {
            Some(encode_utf8(t@))
        },
    }
}

/// Checks a message's integrity tag against the sender's public signing
/// key — a JSON document whose `n` and `e` members hold the unpadded
/// base64url modulus and exponent, other members ignored — using the
/// server's raw-RSA construction: SHA-256 over the signed content is
/// compared with the raw (unpadded) RSA public decryption of the
/// hex-decoded `verification` field. A message without a tag is trusted and
/// verifies as true with no cryptography run. A tag whose raw decryption
/// differs from the hash — a tampered tag — yields false, not an error.
pub fn verify_message_signature(message: &Message, sender_public_signing_key: &str) -> (r: Result<
    bool,
    Errors,
>)
    ensures
        (message.verification is None ==> (r matches Ok(b) && b == true)),
        (message.verification is Some && crate::envelope::spec_rsa_public_key(
            sender_public_signing_key.spec_bytes(),
        ) is None ==> (r matches Err(e) && e is JsonDeserializeError)),
        ((message.verification is Some && spec_signed_content(message) is None && (
        crate::envelope::spec_rsa_public_key(sender_public_signing_key.spec_bytes())
            is Some)) ==> (r matches Err(e) && (e is ValueError || e is HexError
            || e is Base64Error || e is EncryptionError))),
        ((r is Ok && message.verification is Some) ==> (spec_signed_content(message) is Some
            && crate::envelope::spec_rsa_public_key(
            sender_public_signing_key.spec_bytes(),
        ) is Some)),
        (r matches Err(e) ==> e is JsonDeserializeError || e is ValueError || e is HexError
            || e is Base64Error || e is EncryptionError),
{
    let verification = match &message.verification {
        None => {
            return Ok(true);
        },
        Some(v) => v,
    };
    let key = RSAPublicKey::from_str(sender_public_signing_key)?.to_key()?;
    let content = match &message.original_text {
        None => {
            return Err(Errors::ValueError(String::from_str("message misses its original text")));
        },
        Some(t) => {
            if matches!(message.encrypted, Some(true)) {
                hex_decode(t.as_str())?
            } else {
                t.as_str().as_bytes_vec()
            }
        },
    };
    let target = hex_decode(verification.as_str())?;
    if target.len() > 0x7fff_ffff {
        return Err(Errors::EncryptionError(String::from_str("verification tag is too long")));
    }
    let generated_hash = sha256(content.as_slice());
    let decrypted = rsa_public_decrypt_raw(&key, target.as_slice())?;
    Ok(signature_matches(&decrypted, &generated_hash))
}

/// Whether a raw-decrypted tag equals the expected digest, byte for byte.
pub fn signature_matches(decrypted: &Vec<u8>, expected_hash: &Vec<u8>) -> (r: bool)
    ensures
        r == (decrypted@ == expected_hash@),
{
    bytes_eq(decrypted, expected_hash)
}

} // verus!
