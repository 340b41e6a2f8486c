//! The store as the handlers assume it: two maps from key bytes to value
//! bytes, read one key at a time and written only by committing a value
//! together with its checksum. The laws below say what the handlers' answers
//! are on such a store.

use vstd::prelude::*;
use vstd::utf8::{decode_utf8, encode_utf8, valid_utf8};

use crate::checksum::{be_bytes, checksum_of, law_decode_encode, xxh3_64_of};
use crate::db::{DbView, Read, UpdateView};
use crate::protocol::{lookup, IdView, ParamValueView, ParamsView, ResponseView, ScalarView, DATA};
use crate::server::{
    checksum_read_reply, commit_reply, config_read_reply, key_of, set_config_answers, update_for,
    value_result,
};

verus! {

/// The contents of the two tables.
pub struct Tables {
    /// Key to value bytes.
    pub config: Map<Seq<u8>, Seq<u8>>,
    /// Key to checksum bytes.
    pub checksum: Map<Seq<u8>, Seq<u8>>,
}

/// What a point read of `table` under `key` comes to when the engine does
/// not fail.
pub open spec fn read_at(table: Map<Seq<u8>, Seq<u8>>, key: Seq<u8>) -> Read {
    if table.contains_key(key) {
        Read::Found(table[key])
    } else {
        Read::Absent
    }
}

impl Tables {
    /// The tables of a new database.
    pub open spec fn empty() -> Tables {
        Tables { config: Map::empty(), checksum: Map::empty() }
    }

    /// True when something was stored under `key`.
    pub open spec fn written(self, key: Seq<u8>) -> bool {
        self.config.contains_key(key) || self.checksum.contains_key(key)
    }

    /// The tables after `update` has committed: both tables hold its bytes
    /// under its key, and nothing else has changed.
    pub open spec fn commit(self, update: UpdateView) -> Tables {
        Tables {
            config: self.config.insert(update.key, update.value),
            checksum: self.checksum.insert(update.key, update.checksum),
        }
    }

    /// The tables agree: they hold the same keys, and under each the
    /// checksum table holds the checksum of what the table of values holds.
    pub open spec fn consistent(self) -> bool {
        &&& self.config.dom() == self.checksum.dom()
        &&& forall|key: Seq<u8>| #[trigger]
            self.config.contains_key(key) ==> self.checksum[key] == be_bytes(
                xxh3_64_of(self.config[key]),
            )
    }
}

/// A key that was never written has the checksum 0 and the empty text as
/// its value.
pub proof fn law_unwritten_key(tables: Tables, key: Seq<char>, id: Option<IdView>)
    requires
        !tables.written(encode_utf8(key)),
    ensures
        checksum_read_reply(read_at(tables.checksum, encode_utf8(key)), id) == value_result(
            ScalarView::Number(0),
            id,
        ),
        config_read_reply(read_at(tables.config, encode_utf8(key)), id) == value_result(
            ScalarView::Text(Seq::empty()),
            id,
        ),
{
    let nothing = Seq::<u8>::empty();
    assert(valid_utf8(nothing));
    assert(decode_utf8(nothing) == Seq::<char>::empty());
}

/// After a text has been stored under a key, `set_config` has answered with
/// the text's checksum, `checksum` answers with the same number, and `config`
/// with the text itself. This holds of every stored text, that of a
/// serialized object too.
pub proof fn law_read_after_write(
    tables: Tables,
    key: Seq<char>,
    value: Seq<char>,
    id: Option<IdView>,
    later: Option<IdView>,
)
    ensures
        ({
            let after = tables.commit(update_for(key, value));
            &&& commit_reply(true, checksum_of(value), id) == value_result(
                ScalarView::Number(checksum_of(value)),
                id,
            )
            &&& checksum_read_reply(read_at(after.checksum, encode_utf8(key)), later)
                == value_result(ScalarView::Number(checksum_of(value)), later)
            &&& config_read_reply(read_at(after.config, encode_utf8(key)), later) == value_result(
                ScalarView::Text(value),
                later,
            )
        }),
{
    law_decode_encode(checksum_of(value));
    vstd::utf8::encode_utf8_valid_utf8(value);
    vstd::utf8::encode_utf8_decode_utf8(value);
}

/// The text that a `set_config` with the parameters `params` stores: the
/// parameter `data` itself where it is a string, its compact JSON text where
/// it is an object.
pub open spec fn text_to_store(params: ParamsView) -> Option<Seq<char>> {
    match lookup(params, DATA@) {
        Some(ParamValueView::Text(value)) => Some(value),
        Some(ParamValueView::Object(text)) => text,
        _ => None,
    }
}

/// A `set_config` that succeeds has stored a text, answers with the checksum
/// of that text, and a `config` that reads the key afterwards answers with
/// that exact text. For an object the text is its compact JSON text.
pub proof fn law_set_config_success(
    db: DbView,
    tables: Tables,
    params: ParamsView,
    id: Option<IdView>,
    r: ResponseView,
    later: Option<IdView>,
)
    requires
        set_config_answers(db, params, id, r),
        r.payload is Ok,
    ensures
        key_of(params) is Ok,
        text_to_store(params) is Some,
        ({
            let key = key_of(params)->Ok_0;
            let text = text_to_store(params)->0;
            let after = tables.commit(update_for(key, text));
            &&& r == value_result(ScalarView::Number(checksum_of(text)), id)
            &&& checksum_read_reply(read_at(after.checksum, encode_utf8(key)), later)
                == value_result(ScalarView::Number(checksum_of(text)), later)
            &&& config_read_reply(read_at(after.config, encode_utf8(key)), later) == value_result(
                ScalarView::Text(text),
                later,
            )
        }),
{
    let key = key_of(params)->Ok_0;
    let text = text_to_store(params)->0;
    law_read_after_write(tables, key, text, id, later);
}

/// Storing under one key changes nothing under another.
pub proof fn law_other_keys_untouched(tables: Tables, key: Seq<char>, value: Seq<char>, other: Seq<char>)
    requires
        other != key,
    ensures
        ({
            let after = tables.commit(update_for(key, value));
            &&& read_at(after.checksum, encode_utf8(other)) == read_at(
                tables.checksum,
                encode_utf8(other),
            )
            &&& read_at(after.config, encode_utf8(other)) == read_at(tables.config, encode_utf8(other))
        }),
{
    vstd::utf8::encode_utf8_decode_utf8(key);
    vstd::utf8::encode_utf8_decode_utf8(other);
    assert(encode_utf8(other) != encode_utf8(key));
}

/// The tables of a new database agree, and a commit keeps them in
/// agreement: no state holds a value without its checksum, or a checksum of
/// another value.
pub proof fn law_tables_stay_consistent(tables: Tables, key: Seq<char>, value: Seq<char>)
    requires
        tables.consistent(),
    ensures
        Tables::empty().consistent(),
        tables.commit(update_for(key, value)).consistent(),
{
    let after = tables.commit(update_for(key, value));
    assert(after.config.dom() =~= after.checksum.dom());
    assert forall|k: Seq<u8>| #[trigger] after.config.contains_key(k) implies after.checksum[k]
        == be_bytes(xxh3_64_of(after.config[k])) by {
        if k != encode_utf8(key) {
            assert(tables.config.contains_key(k));
        }
    }
    assert(Tables::empty().config.dom() =~= Tables::empty().checksum.dom());
}

/// On tables that agree, the answer of `checksum` is the checksum of the
/// bytes that `config` reads, for every key that was written.
pub proof fn law_checksum_matches_value(tables: Tables, key: Seq<u8>, id: Option<IdView>)
    requires
        tables.consistent(),
        tables.written(key),
    ensures
        read_at(tables.config, key) is Found,
        checksum_read_reply(read_at(tables.checksum, key), id) == value_result(
            ScalarView::Number(xxh3_64_of(read_at(tables.config, key)->Found_0)),
            id,
        ),
{
    assert(tables.config.contains_key(key));
    assert(tables.checksum.contains_key(key));
    law_decode_encode(xxh3_64_of(tables.config[key]));
}

} // verus!
