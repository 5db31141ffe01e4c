//! The account: the model and temperature in use, the cache and the bill.

use vstd::prelude::*;
use crate::models::bill::{Bill, BillView};
use crate::models::cache::{Cache, CacheOp};
use crate::models::effects::{effect_views, Effect, EffectView};
use crate::models::entries::{Entries, EntryView};
use crate::models::gpt_models::GptModel;
use crate::models::query::QueryView;
use crate::models::temperature::Temperature;

verus! {

/// How an operation of the account ended, where it did not end well.
#[derive(Debug, PartialEq)]
pub enum Status {
    Success,
    /// The service, the document or the store failed; the message says how.
    Error(String),
    NotFoundError,
    OpenAIError,
    APIReachedLimit,
    /// The cache held, under the key of one kind of query, a query of
    /// another kind.
    RetrievedUnexpectedQueryType,
}

/// What an account is made with.
#[derive(Debug, PartialEq)]
pub struct Opts {
    pub model: GptModel,
    /// Low temperatures give focused and consistent responses, high ones
    /// give diverse and unexpected ones.
    pub temperature: Temperature,
    /// Whether the store is going to be used. Where it is, an account is
    /// made only if the store was reached.
    pub database: bool,
    /// Where the bill is mirrored.
    pub bill_filepath: String,
    /// Where the cache is mirrored.
    pub cache_filepath: String,
}

/// The bit pattern of the temperature one half.
pub const HALF: u32 = 0x3f00_0000;

impl Default for Opts {
    /// The small model at temperature one half, without the store, with the
    /// bill at `./bill.json` and the cache at `./cache.json`.
    fn default() -> (opts: Self)
        ensures
            opts.model == GptModel::Gpt35Turbo,
            opts.temperature.bits == HALF,
            !opts.database,
            opts.bill_filepath@ == "./bill.json"@,
            opts.cache_filepath@ == "./cache.json"@,
    {
        Opts {
            model: GptModel::Gpt35Turbo,
            temperature: Temperature { bits: HALF },
            database: false,
            bill_filepath: String::from_str("./bill.json"),
            cache_filepath: String::from_str("./cache.json"),
        }
    }
}

/// The account's side of the store: whether a connection was made when the
/// account was.
#[derive(Debug, PartialEq, Eq, Structural, Clone, Copy)]
pub struct DbMethods {
    pub connected: bool,
}

/// What the caller found before it makes an account.
#[derive(Debug, PartialEq)]
pub struct Startup {
    /// The key that opens the service.
    pub api_key: String,
    /// Whether the store was reached, and if not, why not.
    pub database: Result<(), Status>,
    /// The bill that the bill's mirror held, where it held one.
    pub bill: Option<Bill>,
    /// The entries that the cache's mirror held, where it held any.
    pub entries: Option<Entries>,
}

#[derive(Debug, PartialEq)]
pub struct OpenAIAccount {
    /// The model that completions are asked of.
    pub model: GptModel,
    /// The key that opens the service.
    pub api_key: String,
    pub temperature: Temperature,
    /// The running totals of what the completions used and cost.
    pub bill: Bill,
    /// The queries completed so far. A prompt whose key is found here is
    /// answered from here, and no request is sent.
    pub cache: Cache,
    pub db: DbMethods,
}

pub struct OpenAIAccountView {
    pub model: GptModel,
    pub api_key: Seq<char>,
    pub temperature: Temperature,
    pub bill: BillView,
    pub cache: Seq<EntryView>,
    pub cache_filepath: Seq<char>,
    pub db: DbMethods,
}

impl View for OpenAIAccount {
    type V = OpenAIAccountView;

    open spec fn view(&self) -> OpenAIAccountView {
        OpenAIAccountView {
            model: self.model,
            api_key: self.api_key@,
            temperature: self.temperature,
            bill: self.bill@,
            cache: self.cache.entries@,
            cache_filepath: self.cache.filepath@,
            db: self.db,
        }
    }
}

impl OpenAIAccountView {
    /// The account once a completion was found in the cache: one more cache
    /// retrieval is counted, and nothing else has changed.
    pub open spec fn served_from_cache(self) -> OpenAIAccountView {
        OpenAIAccountView { bill: self.bill.retrieved(), ..self }
    }

    /// The account once a fresh query is recorded: the query is in the cache
    /// under its key, and the bill is charged with its usage.
    pub open spec fn recorded(self, query: QueryView) -> OpenAIAccountView {
        OpenAIAccountView {
            cache: CacheOp::Insert(query).entries_after(self.cache),
            bill: self.bill.updated(Some(query)),
            ..self
        }
    }

    /// The writes that recording a fresh query owes: those of the insertion
    /// into the cache, then the bill's.
    pub open spec fn recording_effects(self, query: QueryView) -> Seq<EffectView> {
        CacheOp::Insert(query).effects(self.cache).push(EffectView::RewriteBill)
    }
}

impl OpenAIAccount {
    /// Makes an account from the options and from what the caller found.
    ///
    /// Where the options ask for the store and it was not reached, no
    /// account is made, and the reason is handed on. In every other case
    /// there is an account: with the bill that was found, or a blank one at
    /// the options' place; with the entries that were found, or none, at the
    /// options' place; and the graveyard is to be emptied.
    pub fn new(opts: Opts, found: Startup) -> (made: Result<(OpenAIAccount, Vec<Effect>), Status>)
        ensures
            match made {
                Ok((account, effects)) => {
                    &&& !(opts.database && found.database is Err)
                    &&& account@ == (OpenAIAccountView {
                        model: opts.model,
                        api_key: found.api_key@,
                        temperature: opts.temperature,
                        bill: match found.bill {
                            Some(bill) => bill@,
                            None => BillView::blank(opts.bill_filepath@),
                        },
                        cache: match found.entries {
                            Some(entries) => entries@,
                            None => Seq::empty(),
                        },
                        cache_filepath: opts.cache_filepath@,
                        db: DbMethods { connected: found.database is Ok },
                    })
                    &&& effect_views(effects@) == seq![EffectView::ClearGraveyard]
                },
                Err(status) => opts.database && found.database == Err::<(), Status>(status),
            },
    {
        let connected = match found.database {
            Ok(()) => true,
            Err(status) => {
                if opts.database {
                    return Err(status);
                }
                false
            },
        };
        let bill = match found.bill {
            Some(bill) => bill,
            None => Bill::new(opts.bill_filepath),
        };
        let cache = match found.entries {
            Some(entries) => Cache { entries, filepath: opts.cache_filepath },
            None => Cache::new(opts.cache_filepath),
        };
        let effects = vec![Effect::ClearGraveyard];
        assert(effect_views(effects@) =~= seq![EffectView::ClearGraveyard]);
        Ok(
            (
                OpenAIAccount {
                    bill,
                    cache,
                    api_key: found.api_key,
                    model: opts.model,
                    temperature: opts.temperature,
                    db: DbMethods { connected },
                },
                effects,
            ),
        )
    }

    /// Sets the temperature of the requests to come.
    pub fn set_temperature(&mut self, temperature: Temperature)
        ensures
            final(self)@ == (OpenAIAccountView { temperature, ..old(self)@ }),
    {
        self.temperature = temperature;
    }
}

} // verus!
