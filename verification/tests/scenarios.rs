use bigquery_storage::call::{CallAction, CallEvent, CallState};
use bigquery_storage::auth::TokenOutcome;
use bigquery_storage::column::ColumnType;
use bigquery_storage::request::{AppendRowsRequest, MissingValueInterpretation};
use bigquery_storage::schema::{FieldDescriptor, TableDescriptor, WireField};
use bigquery_storage::stream_name::StreamName;
use bigquery_storage::API_SCOPE;
use prost::bytes::{Buf, BufMut};
use prost::encoding::{DecodeContext, WireType};
use prost::{DecodeError, Message};
use prost_types::field_descriptor_proto::Type;

#[derive(Clone, Debug, Default, PartialEq)]
struct Actor {
    actor_id: i32,
    first_name: String,
    last_name: String,
    last_update: String,
}

impl Message for Actor {
    fn encode_raw(&self, buf: &mut impl BufMut) {
        if self.actor_id != 0 {
            prost::encoding::int32::encode(1, &self.actor_id, buf);
        }
        if !self.first_name.is_empty() {
            prost::encoding::string::encode(2, &self.first_name, buf);
        }
        if !self.last_name.is_empty() {
            prost::encoding::string::encode(3, &self.last_name, buf);
        }
        if !self.last_update.is_empty() {
            prost::encoding::string::encode(4, &self.last_update, buf);
        }
    }

    fn merge_field(
        &mut self,
        tag: u32,
        wire_type: WireType,
        buf: &mut impl Buf,
        ctx: DecodeContext,
    ) -> Result<(), DecodeError> {
        match tag {
            1 => prost::encoding::int32::merge(wire_type, &mut self.actor_id, buf, ctx),
            2 => prost::encoding::string::merge(wire_type, &mut self.first_name, buf, ctx),
            3 => prost::encoding::string::merge(wire_type, &mut self.last_name, buf, ctx),
            4 => prost::encoding::string::merge(wire_type, &mut self.last_update, buf, ctx),
            _ => prost::encoding::skip_field(wire_type, tag, buf, ctx),
        }
    }

    fn encoded_len(&self) -> usize {
        let mut len = 0;
        if self.actor_id != 0 {
            len += prost::encoding::int32::encoded_len(1, &self.actor_id);
        }
        if !self.first_name.is_empty() {
            len += prost::encoding::string::encoded_len(2, &self.first_name);
        }
        if !self.last_name.is_empty() {
            len += prost::encoding::string::encoded_len(3, &self.last_name);
        }
        if !self.last_update.is_empty() {
            len += prost::encoding::string::encoded_len(4, &self.last_update);
        }
        len
    }

    fn clear(&mut self) {
        *self = Actor::default();
    }
}

fn actor(actor_id: i32, first_name: &str, last_name: &str, last_update: &str) -> Actor {
    Actor {
        actor_id,
        first_name: first_name.to_string(),
        last_name: last_name.to_string(),
        last_update: last_update.to_string(),
    }
}

fn actors() -> Vec<Actor> {
    vec![
        actor(401, "Tajinder", "Singh", "2007-02-15 09:34:33 UTC"),
        actor(402, "Gurinder", "Singh", "2008-02-15 09:34:33 UTC"),
    ]
}

fn actor_table() -> TableDescriptor {
    let column = |number: u32, name: &str, typ: ColumnType| FieldDescriptor {
        number,
        name: name.to_string(),
        typ,
    };
    TableDescriptor {
        field_descriptors: vec![
            column(1, "actor_id", ColumnType::Int64),
            column(2, "first_name", ColumnType::String),
            column(3, "last_name", ColumnType::String),
            column(4, "last_update", ColumnType::Timestamp),
        ],
    }
}

fn actor_stream() -> StreamName {
    StreamName::new_default("p".to_string(), "d".to_string(), "actor".to_string())
}

fn serialize(rows: &[Actor]) -> Vec<Vec<u8>> {
    rows.iter().map(|row| row.encode_to_vec()).collect()
}

fn sent_requests(rows: &[Actor]) -> Vec<AppendRowsRequest> {
    let (state, first) =
        CallState::begin(&actor_stream(), &actor_table(), serialize(rows), "test_client".to_string());
    assert_eq!(first, CallAction::FetchToken(API_SCOPE));
    let (_, action) = state.step(CallEvent::Token(TokenOutcome::Granted("tok".to_string())));
    match action {
        CallAction::Send(request) => {
            assert_eq!(request.metadata.len(), 1);
            assert_eq!(request.metadata[0].value, "Bearer tok");
            request.payload
        }
        other => panic!("the call should send: {:?}", other),
    }
}

#[test]
fn two_actors_go_out_in_one_request() {
    let requests = sent_requests(&actors());
    assert_eq!(requests.len(), 1);
    let request = &requests[0];
    assert_eq!(request.write_stream, "projects/p/datasets/d/tables/actor/streams/_default");
    assert_eq!(request.trace_id, "test_client");
    assert_eq!(request.offset, None);
    assert!(request.missing_value_interpretations.is_empty());
    assert_eq!(
        request.default_missing_value_interpretation,
        MissingValueInterpretation::Unspecified
    );
    assert_eq!(request.rows.writer_schema.name, "table_schema");
    assert_eq!(
        request.rows.writer_schema.fields,
        vec![
            WireField { name: "actor_id".to_string(), number: 1, type_number: Type::Int64 as i32 },
            WireField {
                name: "first_name".to_string(),
                number: 2,
                type_number: Type::String as i32,
            },
            WireField {
                name: "last_name".to_string(),
                number: 3,
                type_number: Type::String as i32,
            },
            WireField {
                name: "last_update".to_string(),
                number: 4,
                type_number: Type::String as i32,
            },
        ]
    );
    assert_eq!(request.rows.serialized_rows.len(), 2);
    let mut first: Vec<u8> = vec![0x08, 0x91, 0x03, 0x12, 0x08];
    first.extend_from_slice(b"Tajinder");
    first.extend_from_slice(&[0x1a, 0x05]);
    first.extend_from_slice(b"Singh");
    first.extend_from_slice(&[0x22, 0x17]);
    first.extend_from_slice(b"2007-02-15 09:34:33 UTC");
    assert_eq!(request.rows.serialized_rows[0], first);
    let decoded: Vec<Actor> = request
        .rows
        .serialized_rows
        .iter()
        .map(|bytes| Actor::decode(bytes.as_slice()).unwrap())
        .collect();
    assert_eq!(decoded, actors());
}

#[test]
fn no_rows_still_make_a_request_with_a_schema() {
    let requests = sent_requests(&[]);
    assert_eq!(requests.len(), 1);
    let request = &requests[0];
    assert_eq!(request.write_stream, "projects/p/datasets/d/tables/actor/streams/_default");
    assert!(request.rows.serialized_rows.is_empty());
    assert_eq!(request.rows.writer_schema, actor_table().to_wire());
    assert_eq!(request.rows.writer_schema.fields.len(), 4);
}

#[test]
fn request_has_no_column_with_two_rules_for_missing_values() {
    for request in sent_requests(&actors()) {
        let rules = &request.missing_value_interpretations;
        for (i, rule) in rules.iter().enumerate() {
            assert!(rules[..i].iter().all(|earlier| earlier.column != rule.column));
        }
        assert_eq!(rules.len(), 0);
    }
}

#[test]
fn request_is_the_same_whether_built_alone_or_by_a_call() {
    let alone = AppendRowsRequest::new(
        &actor_stream(),
        &actor_table(),
        serialize(&actors()),
        "test_client".to_string(),
    );
    assert_eq!(sent_requests(&actors()), vec![alone]);
}
