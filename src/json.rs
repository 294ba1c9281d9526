use vstd::prelude::*;
use vstd::string::*;

verus! {

broadcast use vstd::std_specs::vec::axiom_vec_index_decreases;

/// The dynamic value format: a tree of scalars, texts, sequences and
/// name-keyed mappings. A float is carried as its IEEE-754 bit pattern.
#[derive(Debug, PartialEq)]
pub enum Json {
    Null,
    Bool(bool),
    UInt(u64),
    Int(i64),
    Float(u64),
    Str(String),
    Array(Vec<Json>),
    Object(Vec<(String, Json)>),
}

/// The mathematical model of a `Json` value.
pub enum JsonModel {
    Null,
    Bool(bool),
    UInt(u64),
    Int(i64),
    Float(u64),
    Str(Seq<char>),
    Array(Seq<JsonModel>),
    Object(Seq<(Seq<char>, JsonModel)>),
}

/// The model of a `Json` tree.
pub open spec fn model_of(j: Json) -> JsonModel
    decreases j, 0nat,
{
    match j {
        Json::Null => JsonModel::Null,
        Json::Bool(b) => JsonModel::Bool(b),
        Json::UInt(u) => JsonModel::UInt(u),
        Json::Int(i) => JsonModel::Int(i),
        Json::Float(f) => JsonModel::Float(f),
        Json::Str(s) => JsonModel::Str(s@),
        Json::Array(a) => JsonModel::Array(models_of(a, a@.len())),
        Json::Object(o) => JsonModel::Object(entries_of(o, o@.len())),
    }
}

/// The models of the first `n` elements.
pub open spec fn models_of(a: Vec<Json>, n: nat) -> Seq<JsonModel>
    decreases a, n,
{
    if n == 0 || n > a@.len() {
        Seq::empty()
    } else {
        models_of(a, (n - 1) as nat).push(model_of(a[n - 1]))
    }
}

/// The models of the first `n` entries.
pub open spec fn entries_of(o: Vec<(String, Json)>, n: nat) -> Seq<(Seq<char>, JsonModel)>
    decreases o, n,
{
    if n == 0 || n > o@.len() {
        Seq::empty()
    } else {
        entries_of(o, (n - 1) as nat).push((o[n - 1].0@, model_of(o[n - 1].1)))
    }
}

impl View for Json {
    type V = JsonModel;

    open spec fn view(&self) -> JsonModel {
        model_of(*self)
    }
}

impl Json {
    /// A copy of the whole tree.
    #[verifier::loop_isolation(false)]
    pub fn deep_copy(&self) -> (r: Json)
        ensures
            r@ == self@,
        decreases self,
    {
        match self {
            Json::Null => Json::Null,
            Json::Bool(b) => Json::Bool(*b),
            Json::UInt(u) => Json::UInt(*u),
            Json::Int(i) => Json::Int(*i),
            Json::Float(f) => Json::Float(*f),
            Json::Str(s) => Json::Str(s.clone()),
            Json::Array(a) => {
                let mut out: Vec<Json> = Vec::new();
                let mut i: usize = 0;
                while i < a.len()
                    invariant
                        i <= a.len(),
                        out@.len() == i,
                        forall|k: int| 0 <= k < i ==> (#[trigger] out@[k])@ == a@[k]@,
                    decreases a.len() - i,
                {
                    proof {
                        vstd::std_specs::vec::axiom_vec_index_decreases(*a, i as int);
                    }
                    out.push(a[i].deep_copy());
                    i = i + 1;
                }
                proof {
                    lemma_array_view(out);
                    lemma_array_view(*a);
                    assert(out@.map_values(|j: Json| j@) =~= a@.map_values(|j: Json| j@));
                }
                Json::Array(out)
            },
            Json::Object(o) => {
                let mut out: Vec<(String, Json)> = Vec::new();
                let mut i: usize = 0;
                while i < o.len()
                    invariant
                        i <= o.len(),
                        out@.len() == i,
                        forall|k: int|
                            0 <= k < i ==> (#[trigger] out@[k]).0@ == o@[k].0@ && out@[k].1@
                                == o@[k].1@,
                    decreases o.len() - i,
                {
                    proof {
                        vstd::std_specs::vec::axiom_vec_index_decreases(*o, i as int);
                    }
                    let key = o[i].0.clone();
                    out.push((key, o[i].1.deep_copy()));
                    i = i + 1;
                }
                proof {
                    lemma_object_view(out);
                    lemma_object_view(*o);
                    assert(out@.map_values(|p: (String, Json)| (p.0@, p.1@)) =~= o@.map_values(
                        |p: (String, Json)| (p.0@, p.1@),
                    ));
                }
                Json::Object(out)
            },
        }
    }
}

/// The payload `{status: word}`.
pub open spec fn status_model(word: Seq<char>) -> JsonModel {
    JsonModel::Object(seq![("status"@, JsonModel::Str(word))])
}

/// The payload `{status: "err", data: message}`.
pub open spec fn error_model(message: Seq<char>) -> JsonModel {
    JsonModel::Object(seq![("status"@, JsonModel::Str("err"@)), ("data"@, JsonModel::Str(message))])
}

/// Builds a mapping from its entries, given in order.
pub fn object_of(fields: Vec<(String, Json)>) -> (r: Json)
    ensures
        r@ == JsonModel::Object(fields@.map_values(|p: (String, Json)| (p.0@, p.1@))),
{
    proof {
        lemma_object_view(fields);
    }
    Json::Object(fields)
}

/// Builds a sequence from its elements, given in order.
pub fn array_of(items: Vec<Json>) -> (r: Json)
    ensures
        r@ == JsonModel::Array(items@.map_values(|j: Json| j@)),
{
    proof {
        lemma_array_view(items);
    }
    Json::Array(items)
}

/// Builds the payload `{status: word}`.
pub fn status_payload(word: &str) -> (r: Json)
    ensures
        r@ == status_model(word@),
{
    let mut fields: Vec<(String, Json)> = Vec::new();
    fields.push((String::from_str("status"), Json::Str(String::from_str(word))));
    let r = object_of(fields);
    assert(fields@.map_values(|p: (String, Json)| (p.0@, p.1@)) =~= seq![("status"@, JsonModel::Str(word@))]);
    r
}

/// Builds the error payload `{status: "err", data: message}`.
pub fn error_payload(message: String) -> (r: Json)
    ensures
        r@ == error_model(message@),
{
    let ghost m = message@;
    let mut fields: Vec<(String, Json)> = Vec::new();
    fields.push((String::from_str("status"), Json::Str(String::from_str("err"))));
    fields.push((String::from_str("data"), Json::Str(message)));
    let r = object_of(fields);
    assert(fields@.map_values(|p: (String, Json)| (p.0@, p.1@)) =~= seq![
        ("status"@, JsonModel::Str("err"@)),
        ("data"@, JsonModel::Str(m)),
    ]);
    r
}


proof fn lemma_models_of(a: Vec<Json>, n: nat)
    requires
        n <= a@.len(),
    ensures
        models_of(a, n) =~= a@.subrange(0, n as int).map_values(|j: Json| j@),
    decreases n,
{
    if n > 0 {
        lemma_models_of(a, (n - 1) as nat);
    }
}

proof fn lemma_entries_of(o: Vec<(String, Json)>, n: nat)
    requires
        n <= o@.len(),
    ensures
        entries_of(o, n) =~= o@.subrange(0, n as int).map_values(|p: (String, Json)| (p.0@, p.1@)),
    decreases n,
{
    if n > 0 {
        lemma_entries_of(o, (n - 1) as nat);
    }
}

/// The model of a sequence is the sequence of the models of its elements.
pub proof fn lemma_array_view(a: Vec<Json>)
    ensures
        Json::Array(a)@ == JsonModel::Array(a@.map_values(|j: Json| j@)),
{
    lemma_models_of(a, a@.len());
    assert(a@.subrange(0, a@.len() as int) =~= a@);
}

/// The model of a mapping pairs each name with the model of its value.
pub proof fn lemma_object_view(o: Vec<(String, Json)>)
    ensures
        Json::Object(o)@ == JsonModel::Object(o@.map_values(|p: (String, Json)| (p.0@, p.1@))),
{
    lemma_entries_of(o, o@.len());
    assert(o@.subrange(0, o@.len() as int) =~= o@);
}

} // verus!
