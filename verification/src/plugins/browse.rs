//! The request that the page-fetching plugin takes.

use vstd::prelude::*;
use crate::lookup::lemma_first_index_found;
use crate::payload::{
    all_decode,
    decode_list,
    field_names,
    lemma_list_model,
    lemma_record_model,
    read_list,
    view_of,
    views,
    FromPayload,
    Json,
    Payload,
    ToPayload,
};

verus! {

/// A page to fetch: its address and the parameters of the query string, in
/// order.
#[derive(Debug, Clone, PartialEq, Eq)]
pub struct BrowseRequest {
    pub url: String,
    pub params: Vec<(String, String)>,
}

/// The mathematical value of a [`BrowseRequest`].
pub struct BrowseModel {
    pub url: Seq<char>,
    pub params: Seq<(Seq<char>, Seq<char>)>,
}

impl View for BrowseRequest {
    type V = BrowseModel;

    open spec fn view(&self) -> BrowseModel {
        BrowseModel {
            url: self.url@,
            params: Seq::new(
                self.params@.len(),
                |index: int| (self.params@[index].0@, self.params@[index].1@),
            ),
        }
    }
}

/// The payload of a parameter: the list of its name and its value.
pub open spec fn encode_param(param: (Seq<char>, Seq<char>)) -> Json {
    Json::List(seq![Json::Text(param.0), Json::Text(param.1)])
}

/// The payload of a request: a record of the address and of the list of
/// parameters.
pub open spec fn encode_browse(request: BrowseModel) -> Json {
    Json::Record(
        seq![
            ("url"@, Json::Text(request.url)),
            (
                "params"@,
                Json::List(
                    Seq::new(request.params.len(), |index: int| encode_param(request.params[index])),
                ),
            ),
        ],
    )
}

impl ToPayload for BrowseRequest {
    open spec fn encoding(&self) -> Json {
        encode_browse(self@)
    }

    fn to_payload(&self) -> (payload: Payload) {
        let mut written: Vec<Payload> = Vec::new();
        let mut index: usize = 0;
        while index < self.params.len()
            invariant
                index <= self.params.len(),
                written@.len() == index,
                forall|earlier: int|
                    0 <= earlier < index ==> written@[earlier]@ == encode_param(
                        self@.params[earlier],
                    ),
            decreases self.params.len() - index,
        {
            written.push(self.params[index].to_payload());
            index += 1;
        }
        let mut fields: Vec<(String, Payload)> = Vec::new();
        fields.push(("url".to_owned(), Payload::Text(self.url.clone())));
        proof {
            lemma_list_model(written);
            assert(Payload::List(written)@->List_0 =~= encode_browse(
                self@,
            )->Record_0[1].1->List_0);
        }
        fields.push(("params".to_owned(), Payload::List(written)));
        proof {
            lemma_record_model(fields);
            assert(Payload::Record(fields)@->Record_0 =~= encode_browse(self@)->Record_0);
        }
        Payload::Record(fields)
    }
}

/// The parameter that a payload stands for: a list of exactly a name and
/// a value, both texts.
pub open spec fn decode_param(json: Json) -> Option<(Seq<char>, Seq<char>)> {
    match json {
        Json::List(items) => if items.len() == 2 {
            match (items[0], items[1]) {
                (Json::Text(name), Json::Text(value)) => Some((name, value)),
                _ => None,
            }
        } else {
            None
        },
        _ => None,
    }
}

impl ToPayload for (String, String) {
    open spec fn encoding(&self) -> Json {
        encode_param(self@)
    }

    fn to_payload(&self) -> (payload: Payload) {
        let mut pair: Vec<Payload> = Vec::new();
        pair.push(Payload::Text(self.0.clone()));
        pair.push(Payload::Text(self.1.clone()));
        proof {
            lemma_list_model(pair);
            assert(Payload::List(pair)@->List_0 =~= encode_param(self@)->List_0);
        }
        Payload::List(pair)
    }
}

impl FromPayload for (String, String) {
    open spec fn decoding(json: Json) -> Option<(Seq<char>, Seq<char>)> {
        decode_param(json)
    }

    fn from_payload(payload: &Payload) -> (value: Option<(String, String)>) {
        match payload {
            Payload::List(items) => {
                proof {
                    lemma_list_model(*items);
                }
                if items.len() == 2 {
                    match &items[0] {
                        Payload::Text(name) => match &items[1] {
                            Payload::Text(value) => Some((name.clone(), value.clone())),
                            _ => None,
                        },
                        _ => None,
                    }
                } else {
                    None
                }
            },
            _ => None,
        }
    }
}

/// The request that an address and a list of parameters make, where both
/// are there and each has its shape.
pub open spec fn browse_parts(url: Option<Json>, params: Option<Json>) -> Option<BrowseModel> {
    match (url, params) {
        (Some(Json::Text(url)), Some(params)) => match decode_list::<(String, String)>(params) {
            Some(params) => Some(BrowseModel { url, params }),
            None => None,
        },
        _ => None,
    }
}

/// The request that a payload stands for: a record with the fields `url`
/// and `params` (other fields are passed over), or a list of exactly the
/// address and the parameters.
pub open spec fn decode_browse(json: Json) -> Option<BrowseModel> {
    match json {
        Json::Record(_) => browse_parts(json.field("url"@), json.field("params"@)),
        Json::List(items) => if items.len() == 2 {
            browse_parts(Some(items[0]), Some(items[1]))
        } else {
            None
        },
        _ => None,
    }
}

fn browse_of(url: Option<&Payload>, params: Option<&Payload>) -> (request: Option<BrowseRequest>)
    ensures
        request is Some <==> browse_parts(view_of(url), view_of(params)) is Some,
        request is Some ==> request.unwrap()@ == browse_parts(
            view_of(url),
            view_of(params),
        ).unwrap(),
{
    let url = match url {
        Some(value) => String::from_payload(value),
        None => None,
    };
    let params = match params {
        Some(value) => read_list::<(String, String)>(value),
        None => None,
    };
    match (url, params) {
        (Some(url), Some(params)) => {
            let request = BrowseRequest { url, params };
            assert(request@.params =~= views(params@));
            Some(request)
        },
        _ => None,
    }
}

impl FromPayload for BrowseRequest {
    open spec fn decoding(json: Json) -> Option<BrowseModel> {
        decode_browse(json)
    }

    fn from_payload(payload: &Payload) -> (value: Option<BrowseRequest>) {
        match payload {
            Payload::Record(_) => browse_of(payload.field("url"), payload.field("params")),
            Payload::List(items) => {
                proof {
                    lemma_list_model(*items);
                }
                if items.len() == 2 {
                    browse_of(Some(&items[0]), Some(&items[1]))
                } else {
                    None
                }
            },
            _ => None,
        }
    }
}

/// A parameter is read back from its payload.
pub proof fn lemma_param_round_trip(param: (Seq<char>, Seq<char>))
    ensures
        decode_param(encode_param(param)) == Some(param),
{
}

/// A request is read back from its payload.
pub proof fn lemma_browse_round_trip(request: BrowseModel)
    ensures
        decode_browse(encode_browse(request)) == Some(request),
{
    reveal_strlit("url");
    reveal_strlit("params");
    let fields = encode_browse(request)->Record_0;
    let names = field_names(fields);
    assert(names[0] == "url"@);
    assert(names[1] == "params"@);
    assert("url"@.len() != "params"@.len());
    lemma_first_index_found(names, "url"@, 0);
    lemma_first_index_found(names, "params"@, 1);
    let written = fields[1].1->List_0;
    assert forall|index: int| 0 <= index < written.len() implies (#[trigger] <(
        String,
        String,
    ) as FromPayload>::decoding(written[index])) is Some by {
        lemma_param_round_trip(request.params[index]);
    }
    assert(all_decode::<(String, String)>(written));
    let read = decode_list::<(String, String)>(fields[1].1).unwrap();
    assert forall|index: int| 0 <= index < read.len() implies read[index]
        == request.params[index] by {
        lemma_param_round_trip(request.params[index]);
    }
    assert(read =~= request.params);
}

} // verus!
