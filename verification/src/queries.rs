use vstd::prelude::*;

verus! {

/// The reserved property under which the identifier that the engine gave an
/// entity is written back into the graph.
pub const ID_TERM: &'static str = "http://example.com/ns#testing+id";

/// Process entities with the values of their property paths.
pub const PROCESSOR_QUERY: &'static str = r#" 
PREFIX nifi: <https://w3id.org/conn/nifi#>
PREFIX sh: <http://www.w3.org/ns/shacl#>
PREFIX fno: <https://w3id.org/function/ontology#>
PREFIX fnom: <https://w3id.org/function/vocabulary/mapping#>
PREFIX : <https://w3id.org/conn#> 
                
  SELECT * WHERE {

    ?tys a nifi:NifiProcess;
        nifi:type ?ty
        .

    ?shape sh:targetClass ?tys;
        sh:property [
          sh:path ?p;
        ].

    ?subject a ?tys;
      ?p ?value.

    OPTIONAL { ?shape sh:property [ sh:path ?p; sh:datatype ?datatype ] }
    OPTIONAL { ?shape sh:property [ sh:path ?p; sh:class ?class ] }
    OPTIONAL {
      ?tys nifi:mapping [
        fno:parameterMapping [
          fnom:functionParameter ?p;
          fnom:implementationParameterPosition ?nifi_key;
        ]
      ].
    }
  }
"#;

/// Links between two provisioned process entities through a channel.
pub const LINK_QUERY: &'static str = r#"
PREFIX nifi: <https://w3id.org/conn/nifi#>
PREFIX sh: <http://www.w3.org/ns/shacl#>
PREFIX fno: <https://w3id.org/function/ontology#>
PREFIX fnom: <https://w3id.org/function/vocabulary/mapping#>
PREFIX : <https://w3id.org/conn#> 
                
SELECT * WHERE {
    _:channel a nifi:NifiChannel;
      :reader ?reader;
      :writer ?writer.

    ?sourceTy a nifi:NifiProcess.
    [] sh:targetClass ?sourceType;
       sh:property [
         sh:class :WriterChannel;
         sh:path ?sourcePath;
       ].

    ?sourceType nifi:mapping [
        fno:parameterMapping [
          fnom:functionParameter ?sourcePath;
          fnom:implementationParameterPosition ?key;
        ]
      ].

    ?targetTy a nifi:NifiProcess.

    [] sh:targetClass ?targetTy;
       sh:property [
         sh:class :ReaderChannel;
         sh:path ?targetPath;
       ].

   _:source a ?sourceTy;
     <http://example.com/ns#testing+id> ?source_id;
     ?sourcePath ?writer.
     
   _:target a ?targetTy;
     <http://example.com/ns#testing+id> ?target_id;
     ?targetPath ?reader.
}
"#;

/// Writer channel entities with the variables they set.
pub const WRITER_QUERY: &'static str = r#"
PREFIX nifi: <https://w3id.org/conn/nifi#>
PREFIX sh: <http://www.w3.org/ns/shacl#>
PREFIX : <https://w3id.org/conn#> 
                
SELECT DISTINCT ?writer_type ?subject ?nifi_key ?value WHERE {
    ?sourceTy a nifi:NifiProcess.

    [] sh:targetClass ?sourceTy;
        sh:property [
          sh:class :WriterChannel;
          sh:path ?sourcePath;
          nifi:key ?writerKey;
        ].

     _:source a ?sourceTy;
         ?sourcePath ?subject.

    [] sh:targetClass ?writer_type;
        sh:property [
          sh:path ?p;
          nifi:key ?nifi_key;
        ].

    ?subject a ?writer_type;
      ?p ?value.
}
"#;

/// Links from a provisioned process entity to the port of a writer channel.
pub const WRITER_LINK_QUERY: &'static str = r#"
PREFIX nifi: <https://w3id.org/conn/nifi#>
PREFIX sh: <http://www.w3.org/ns/shacl#>
PREFIX : <https://w3id.org/conn#> 

SELECT * {
    ?sourceTy a nifi:NifiProcess.
    [] sh:targetClass ?sourceTy;
        sh:property [
          sh:class :WriterChannel;
          sh:path ?sourcePath;
          nifi:key ?key;
        ].
    
     _:source a ?sourceTy;
       <http://example.com/ns#testing+id> ?source_id;
       ?sourcePath ?subject.

    ?subject <http://example.com/ns#testing+id> ?target_id.
}
"#;

/// Reader channel entities with the variables they set.
pub const READER_QUERY: &'static str = r#"
BASE <http://example.com/ns#>
PREFIX nifi: <https://w3id.org/conn/nifi#>
PREFIX sh: <http://www.w3.org/ns/shacl#>
PREFIX : <https://w3id.org/conn#> 
                
SELECT DISTINCT ?reader_type ?subject ?nifi_key ?value WHERE {
    ?sourceTy a <NifiProcess>;
      :shape [
        sh:property [
          sh:class :ReaderChannel;
          sh:path ?sourcePath;
        ]
      ].

     _:source a ?sourceTy;
         ?sourcePath ?subject.

    ?reader_type :shape [
      sh:property [
        sh:path ?p;
        nifi:key ?nifi_key;
      ]
    ].

    ?subject a ?reader_type;
      ?p ?value.
}
"#;

/// Links from the port of a reader channel to a provisioned process entity.
pub const READER_LINK_QUERY: &'static str = r#"
BASE <http://example.com/ns#>
PREFIX nifi: <https://w3id.org/conn/nifi#>
PREFIX sh: <http://www.w3.org/ns/shacl#>
PREFIX : <https://w3id.org/conn#> 

SELECT * {
    ?sourceTy a <NifiProcess>;
      :shape [
        sh:property [
          sh:class :ReaderChannel;
          sh:path ?sourcePath;
        ]
      ].
    
     _:source a ?sourceTy;
       <http://example.com/ns#testing+id> ?target_id;
       ?sourcePath ?subject.

    ?subject <http://example.com/ns#testing+id> ?source_id.
}
"#;

/// The pattern queries that a run puts to the graph.
#[derive(Clone, Copy, Debug, PartialEq, Eq, Structural)]
pub enum QueryKind {
    Processors,
    Links,
    Writers,
    WriterLinks,
    Readers,
    ReaderLinks,
}

/// The text of each query.
pub open spec fn query_text(kind: QueryKind) -> Seq<char> {
    match kind {
        QueryKind::Processors => PROCESSOR_QUERY@,
        QueryKind::Links => LINK_QUERY@,
        QueryKind::Writers => WRITER_QUERY@,
        QueryKind::WriterLinks => WRITER_LINK_QUERY@,
        QueryKind::Readers => READER_QUERY@,
        QueryKind::ReaderLinks => READER_LINK_QUERY@,
    }
}

/// The name of each query in diagnostics.
pub open spec fn query_label(kind: QueryKind) -> Seq<char> {
    match kind {
        QueryKind::Processors => "Process Query"@,
        QueryKind::Links => "Nifi link query"@,
        QueryKind::Writers => "WS Writer query"@,
        QueryKind::WriterLinks => "WS writer link"@,
        QueryKind::Readers => "WS Reader query"@,
        QueryKind::ReaderLinks => "WS reader link"@,
    }
}

impl QueryKind {
    pub fn query(self) -> (s: &'static str)
        ensures
            s@ == query_text(self),
    {
        match self {
            QueryKind::Processors => PROCESSOR_QUERY,
            QueryKind::Links => LINK_QUERY,
            QueryKind::Writers => WRITER_QUERY,
            QueryKind::WriterLinks => WRITER_LINK_QUERY,
            QueryKind::Readers => READER_QUERY,
            QueryKind::ReaderLinks => READER_LINK_QUERY,
        }
    }

    pub fn error(self) -> (s: &'static str)
        ensures
            s@ == query_label(self),
    {
        match self {
            QueryKind::Processors => "Process Query",
            QueryKind::Links => "Nifi link query",
            QueryKind::Writers => "WS Writer query",
            QueryKind::WriterLinks => "WS writer link",
            QueryKind::Readers => "WS Reader query",
            QueryKind::ReaderLinks => "WS reader link",
        }
    }
}

} // verus!
