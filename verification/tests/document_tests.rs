use odata_atom::atom::{write_atom_entry_from_record, write_atom_feed_from_records};
use odata_atom::metadata::{write_metadata_document, CollectionSchema};
use odata_atom::router::{classify_keyed_result, route_collection_response, CollectionResponse, KeyedOutcome};
use odata_atom::service::write_service_document;
use odata_atom::types::{
    CellValue, CollectionContext, Column, Field, FieldType, ODataError, OnUnsupported, RecordBatch,
    Schema,
};
use odata_atom::url::{normalize_collection_base_url, normalize_service_base_url};

fn tickers_schema() -> Schema {
    Schema {
        fields: vec![
            Field {
                name: "offset".to_string(),
                data_type: FieldType::Int64,
                nullable: false,
            },
            Field {
                name: "symbol".to_string(),
                data_type: FieldType::Utf8,
                nullable: true,
            },
        ],
    }
}

fn tickers_ctx(policy: OnUnsupported) -> CollectionContext {
    CollectionContext {
        service_base_url: "http://example.com".to_string(),
        collection_base_url: "http://example.com/tickers/".to_string(),
        collection_name: "tickers".to_string(),
        collection_namespace: "default".to_string(),
        key_column_name: "offset".to_string(),
        on_unsupported: policy,
    }
}

// 2020-01-01T12:00:00Z in epoch milliseconds.
const UPDATED_MS: i64 = 1_577_880_000_000;

fn entry_xml(offset: &str, symbol_prop: &str) -> String {
    format!(
        "<entry><id>http://example.com/tickers({offset})</id>\
         <category scheme=\"http://schemas.microsoft.com/ado/2007/08/dataservices/scheme\" term=\"default.tickers\"/>\
         <link rel=\"edit\" title=\"tickers\" href=\"tickers({offset})\"/>\
         <title/><updated>2020-01-01T12:00:00.000Z</updated><author><name/></author>\
         <content type=\"application/xml\"><m:properties>{symbol_prop}</m:properties></content></entry>"
    )
}

#[test]
fn feed_document_is_byte_exact() {
    let schema = tickers_schema();
    let batches = vec![
        RecordBatch {
            columns: vec![
                Column {
                    cells: vec![CellValue::Int64(0)],
                },
                Column {
                    cells: vec![CellValue::Text("spy".to_string())],
                },
            ],
        },
        RecordBatch {
            columns: vec![
                Column {
                    cells: vec![CellValue::Int64(1)],
                },
                Column {
                    cells: vec![CellValue::Text("a&b".to_string())],
                },
            ],
        },
    ];
    let doc =
        write_atom_feed_from_records(&schema, &batches, &tickers_ctx(OnUnsupported::Error), UPDATED_MS)
            .unwrap();

    let mut expected = String::from(
        "<?xml version=\"1.0\" encoding=\"utf-8\"?>\
         <feed xml:base=\"http://example.com/\" xmlns=\"http://www.w3.org/2005/Atom\" \
         xmlns:d=\"http://schemas.microsoft.com/ado/2007/08/dataservices\" \
         xmlns:m=\"http://schemas.microsoft.com/ado/2007/08/dataservices/metadata\">\
         <id>http://example.com/tickers</id><title type=\"text\">tickers</title>\
         <updated>2020-01-01T12:00:00.000Z</updated>\
         <link rel=\"self\" title=\"tickers\" href=\"tickers\"/>",
    );
    expected.push_str(&entry_xml("0", "<d:symbol m:type=\"Edm.String\">spy</d:symbol>"));
    expected.push_str(&entry_xml(
        "1",
        "<d:symbol m:type=\"Edm.String\">a&amp;b</d:symbol>",
    ));
    expected.push_str("</feed>");

    assert_eq!(doc, expected);
}

#[test]
fn feed_preserves_row_order_across_batches() {
    let schema = tickers_schema();
    let batch = |k: i64, s: &str| RecordBatch {
        columns: vec![
            Column {
                cells: vec![CellValue::Int64(k)],
            },
            Column {
                cells: vec![CellValue::Text(s.to_string())],
            },
        ],
    };
    let batches = vec![batch(5, "e"), batch(2, "b"), batch(9, "x")];
    let doc =
        write_atom_feed_from_records(&schema, &batches, &tickers_ctx(OnUnsupported::Error), UPDATED_MS)
            .unwrap();
    let i5 = doc.find("tickers(5)").unwrap();
    let i2 = doc.find("tickers(2)").unwrap();
    let i9 = doc.find("tickers(9)").unwrap();
    assert!(i5 < i2 && i2 < i9);
}

#[test]
fn feed_encoding_is_idempotent() {
    let schema = tickers_schema();
    let batches = vec![RecordBatch {
        columns: vec![
            Column {
                cells: vec![CellValue::Int64(3)],
            },
            Column {
                cells: vec![CellValue::Text("s".to_string())],
            },
        ],
    }];
    let ctx = tickers_ctx(OnUnsupported::Error);
    let d1 = write_atom_feed_from_records(&schema, &batches, &ctx, UPDATED_MS).unwrap();
    let d2 = write_atom_feed_from_records(&schema, &batches, &ctx, UPDATED_MS).unwrap();
    assert_eq!(d1, d2);
}

#[test]
fn entry_document_renders_null_with_marker() {
    let schema = tickers_schema();
    let batch = RecordBatch {
        columns: vec![
            Column {
                cells: vec![CellValue::Int64(0)],
            },
            Column {
                cells: vec![CellValue::Null],
            },
        ],
    };
    let doc = write_atom_entry_from_record(
        &schema,
        &batch,
        &tickers_ctx(OnUnsupported::Error),
        UPDATED_MS,
    )
    .unwrap();
    let expected = String::from(
        "<?xml version=\"1.0\" encoding=\"utf-8\"?>\
         <entry xml:base=\"http://example.com/\" xmlns=\"http://www.w3.org/2005/Atom\" \
         xmlns:d=\"http://schemas.microsoft.com/ado/2007/08/dataservices\" \
         xmlns:m=\"http://schemas.microsoft.com/ado/2007/08/dataservices/metadata\">\
         <id>http://example.com/tickers(0)</id>\
         <category scheme=\"http://schemas.microsoft.com/ado/2007/08/dataservices/scheme\" term=\"default.tickers\"/>\
         <link rel=\"edit\" title=\"tickers\" href=\"tickers(0)\"/>\
         <title/><updated>2020-01-01T12:00:00.000Z</updated><author><name/></author>\
         <content type=\"application/xml\"><m:properties>\
         <d:symbol m:type=\"Edm.String\" m:null=\"true\"/>\
         </m:properties></content></entry>",
    );
    assert_eq!(doc, expected);
}

#[test]
fn fail_fast_policy_rejects_whole_request() {
    let mut schema = tickers_schema();
    schema.fields.push(Field {
        name: "exotic".to_string(),
        data_type: FieldType::List,
        nullable: true,
    });
    let batches = vec![RecordBatch {
        columns: vec![
            Column {
                cells: vec![CellValue::Int64(0)],
            },
            Column {
                cells: vec![CellValue::Text("spy".to_string())],
            },
            Column {
                cells: vec![CellValue::Null],
            },
        ],
    }];
    let err =
        write_atom_feed_from_records(&schema, &batches, &tickers_ctx(OnUnsupported::Error), UPDATED_MS)
            .unwrap_err();
    match err {
        ODataError::UnsupportedDataType(u) => assert_eq!(u.data_type, FieldType::List),
        other => panic!("unexpected error: {:?}", other),
    }
}

#[test]
fn warn_policy_skips_unsupported_field_everywhere() {
    let mut schema = tickers_schema();
    schema.fields.push(Field {
        name: "exotic".to_string(),
        data_type: FieldType::List,
        nullable: true,
    });
    let batches = vec![RecordBatch {
        columns: vec![
            Column {
                cells: vec![CellValue::Int64(0)],
            },
            Column {
                cells: vec![CellValue::Text("spy".to_string())],
            },
            Column {
                cells: vec![CellValue::Null],
            },
        ],
    }];
    let doc =
        write_atom_feed_from_records(&schema, &batches, &tickers_ctx(OnUnsupported::Warn), UPDATED_MS)
            .unwrap();
    assert!(doc.contains("<d:symbol"));
    assert!(!doc.contains("exotic"));

    let colls = vec![CollectionSchema {
        name: "tickers".to_string(),
        key_column_name: "offset".to_string(),
        schema,
    }];
    let meta = write_metadata_document(&colls, OnUnsupported::Warn).unwrap();
    assert!(meta.contains("<Property Name=\"symbol\""));
    assert!(!meta.contains("exotic"));

    let meta_err = write_metadata_document(&colls, OnUnsupported::Error).unwrap_err();
    assert_eq!(meta_err.data_type, FieldType::List);
}

#[test]
fn route_keyless_address_yields_feed() {
    let schema = tickers_schema();
    let batches = vec![RecordBatch {
        columns: vec![
            Column {
                cells: vec![CellValue::Int64(0)],
            },
            Column {
                cells: vec![CellValue::Text("spy".to_string())],
            },
        ],
    }];
    let r = route_collection_response(
        &schema,
        &batches,
        &tickers_ctx(OnUnsupported::Error),
        UPDATED_MS,
        false,
    )
    .unwrap();
    assert!(matches!(r, CollectionResponse::Feed(_)));
}

#[test]
fn route_keyed_address_with_no_rows_is_not_found() {
    let schema = tickers_schema();
    let batches: Vec<RecordBatch> = Vec::new();
    let r = route_collection_response(
        &schema,
        &batches,
        &tickers_ctx(OnUnsupported::Error),
        UPDATED_MS,
        true,
    )
    .unwrap();
    assert!(matches!(r, CollectionResponse::NotFound));
}

#[test]
fn route_keyed_address_with_one_row_is_entry() {
    let schema = tickers_schema();
    let batches = vec![RecordBatch {
        columns: vec![
            Column {
                cells: vec![CellValue::Int64(0)],
            },
            Column {
                cells: vec![CellValue::Text("spy".to_string())],
            },
        ],
    }];
    let r = route_collection_response(
        &schema,
        &batches,
        &tickers_ctx(OnUnsupported::Error),
        UPDATED_MS,
        true,
    )
    .unwrap();
    match r {
        CollectionResponse::Entry(doc) => assert!(doc.starts_with("<?xml")),
        other => panic!("expected an entry, got {:?}", other),
    }
}

#[test]
fn service_base_url_gains_separator() {
    assert_eq!(
        normalize_service_base_url("http://example.com").unwrap(),
        "http://example.com/"
    );
    assert_eq!(
        normalize_service_base_url("http://example.com/").unwrap(),
        "http://example.com/"
    );
}

#[test]
fn collection_base_url_loses_separator() {
    assert_eq!(
        normalize_collection_base_url("http://example.com/t/").unwrap(),
        "http://example.com/t"
    );
    assert_eq!(
        normalize_collection_base_url("http://example.com/t").unwrap(),
        "http://example.com/t"
    );
}

#[test]
fn non_http_base_url_is_rejected() {
    match normalize_service_base_url("ftp://example.com").unwrap_err() {
        ODataError::UnsupportedNetProtocol(u) => assert_eq!(u, "ftp://example.com"),
        other => panic!("unexpected error: {:?}", other),
    }
    assert!(normalize_collection_base_url("gopher://x").is_err());

    // The scheme must be exactly http or https, regardless of other validity.
    assert!(normalize_service_base_url("httpx://a").is_err());
    assert!(normalize_collection_base_url("httpx://a").is_err());
    assert!(normalize_service_base_url("httpfoo").is_err());
    assert!(normalize_service_base_url("http").is_err());
    assert_eq!(
        normalize_service_base_url("https://example.com").unwrap(),
        "https://example.com/"
    );
    assert_eq!(
        normalize_collection_base_url("https://example.com/t/").unwrap(),
        "https://example.com/t"
    );

    let schema = tickers_schema();
    let mut ctx = tickers_ctx(OnUnsupported::Error);
    ctx.service_base_url = "file:///tmp".to_string();
    let err = write_atom_feed_from_records(&schema, &Vec::new(), &ctx, UPDATED_MS).unwrap_err();
    assert!(matches!(err, ODataError::UnsupportedNetProtocol(_)));
}

#[test]
fn metadata_document_is_byte_exact() {
    let colls = vec![CollectionSchema {
        name: "tickers".to_string(),
        key_column_name: "offset".to_string(),
        schema: tickers_schema(),
    }];
    let doc = write_metadata_document(&colls, OnUnsupported::Error).unwrap();
    let expected = String::from(
        "<?xml version=\"1.0\" encoding=\"utf-8\"?>\
         <edmx:Edmx Version=\"1.0\" xmlns:edmx=\"http://schemas.microsoft.com/ado/2007/06/edmx\">\
         <edmx:DataServices m:DataServiceVersion=\"3.0\" xmlns:m=\"http://schemas.microsoft.com/ado/2007/08/dataservices/metadata\">\
         <Schema Namespace=\"default\" xmlns=\"http://schemas.microsoft.com/ado/2008/09/edm\">\
         <EntityType Name=\"tickers\"><Key><PropertyRef Name=\"offset\"/></Key>\
         <Property Name=\"offset\" Type=\"Edm.Int64\" Nullable=\"false\"/>\
         <Property Name=\"symbol\" Type=\"Edm.String\" Nullable=\"true\"/>\
         </EntityType>\
         <EntityContainer Name=\"default\" m:IsDefaultEntityContainer=\"true\">\
         <EntitySet Name=\"tickers\" EntityType=\"default.tickers\"/>\
         </EntityContainer></Schema></edmx:DataServices></edmx:Edmx>",
    );
    assert_eq!(doc, expected);
}

#[test]
fn service_document_lists_collections() {
    let doc = write_service_document(
        &"http://example.com/".to_string(),
        &vec!["tickers".to_string(), "trades".to_string()],
    );
    let expected = String::from(
        "<?xml version=\"1.0\" encoding=\"utf-8\"?>\
         <service xml:base=\"http://example.com/\" xmlns=\"http://www.w3.org/2007/app\" \
         xmlns:atom=\"http://www.w3.org/2005/Atom\"><workspace><atom:title>default</atom:title>\
         <collection href=\"tickers\"><atom:title>tickers</atom:title></collection>\
         <collection href=\"trades\"><atom:title>trades</atom:title></collection>\
         </workspace></service>",
    );
    assert_eq!(doc, expected);
}

#[test]
fn empty_feed_still_renders_header() {
    let schema = tickers_schema();
    let doc = write_atom_feed_from_records(
        &schema,
        &Vec::new(),
        &tickers_ctx(OnUnsupported::Error),
        UPDATED_MS,
    )
    .unwrap();
    assert!(doc.ends_with("<link rel=\"self\" title=\"tickers\" href=\"tickers\"/></feed>"));
}

#[test]
fn keyed_result_with_extra_rows_is_contract_violation() {
    let one_row = |k: i64| RecordBatch {
        columns: vec![
            Column {
                cells: vec![CellValue::Int64(k)],
            },
            Column {
                cells: vec![CellValue::Text("s".to_string())],
            },
        ],
    };
    let two_rows = RecordBatch {
        columns: vec![
            Column {
                cells: vec![CellValue::Int64(0), CellValue::Int64(1)],
            },
            Column {
                cells: vec![
                    CellValue::Text("a".to_string()),
                    CellValue::Text("b".to_string()),
                ],
            },
        ],
    };

    // More than one row or batch is an internal contract violation, never a
    // document.
    assert_eq!(
        classify_keyed_result(&vec![two_rows]),
        KeyedOutcome::ContractViolation
    );
    assert_eq!(
        classify_keyed_result(&vec![one_row(0), one_row(1)]),
        KeyedOutcome::ContractViolation
    );

    // The two admissible shapes.
    assert_eq!(classify_keyed_result(&vec![one_row(0)]), KeyedOutcome::Single);
    assert_eq!(classify_keyed_result(&Vec::new()), KeyedOutcome::NotFound);
}
