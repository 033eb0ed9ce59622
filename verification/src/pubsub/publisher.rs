//! The outbound message that carries an outcome event.

use vstd::prelude::*;
use vstd::string::*;
use crate::models::DocumentGenerationResponse;

verus! {

#[derive(Debug)]
pub struct Publisher {
    pub project_id: String,
    pub topic_name: String,
}

/// A message for the outbound topic: the serialised event and the attributes
/// by which subscribers filter.
#[derive(Debug, Clone)]
pub struct OutboundMessage {
    pub data: Vec<u8>,
    pub attributes: Vec<(String, String)>,
}

/// The attributes of the message of an event: its request id and its status.
pub open spec fn attributes_of(response: DocumentGenerationResponse) -> Seq<(Seq<char>, Seq<char>)> {
    seq![("request_id"@, response.request_id@), ("status"@, response.status@)]
}

/// The names and values of a list of attributes.
pub open spec fn attribute_views(attributes: Seq<(String, String)>) -> Seq<(Seq<char>, Seq<char>)> {
    attributes.map_values(|a: (String, String)| (a.0@, a.1@))
}

impl Publisher {
    /// The publisher of a topic of a project.
    pub fn new(project_id: &str, topic_name: &str) -> (publisher: Publisher)
        ensures
            publisher.project_id@ == project_id@,
            publisher.topic_name@ == topic_name@,
    {
        Publisher {
            project_id: String::from_str(project_id),
            topic_name: String::from_str(topic_name),
        }
    }

    /// The message that publishes an event: the serialised event with the
    /// event's request id and status as attributes. An event that could not
    /// be serialised is not published.
    pub fn publish_response(
        &self,
        response: &DocumentGenerationResponse,
        serialized: Result<Vec<u8>, String>,
    ) -> (message: Option<OutboundMessage>)
        ensures
            match serialized {
                Ok(data) => {
                    &&& message matches Some(m)
                    &&& m.data == data
                    &&& attribute_views(m.attributes@) == attributes_of(*response)
                },
                Err(_) => message.is_none(),
            },
    {
        match serialized {
            Ok(data) => {
                let mut attributes: Vec<(String, String)> = Vec::new();
                attributes.push((String::from_str("request_id"), response.request_id.clone()));
                attributes.push((String::from_str("status"), response.status.clone()));
                assert(attribute_views(attributes@) =~= attributes_of(*response));
                Some(OutboundMessage { data, attributes })
            },
            Err(_) => None,
        }
    }
}

} // verus!
