//! Error kinds for Kafka error codes.
use vstd::prelude::*;

verus! {

/// A trait providing tools for parsing Kafka response error code.
pub trait ParseResponseErrorCode: Sized {
    /// Convert from an i16 error code to `Option<()>`, if is ok, returns `Some(())`.
    ///
    /// Convert self into an Option<()>, consuming self, and discarding the error code, if any.
    fn ok(self) -> Option<()>;

    /// Convert from an i16 error code to `Option<ResponseError>`, if is error, returns `Some(ResponseError)`
    ///
    /// Convert self into an Option<ResponseError>, consuming self, and discarding the success
    /// value, if any.
    fn err(self) -> Option<ResponseError>;

    /// Returns true if the result is ok.
    fn is_ok(&self) -> bool;

    /// Returns true if the result is error.
    fn is_err(&self) -> bool;
}

impl ParseResponseErrorCode for i16 {
    fn ok(self) -> (r: Option<()>)
        ensures
            r == (if self == 0 {
                Some(())
            } else {
                None
            }),
    {
        if self == 0 {
            Some(())
        } else {
            None
        }
    }

    fn err(self) -> (r: Option<ResponseError>)
        ensures
            ResponseError::decodes(self, r),
    {
        ResponseError::try_from_code(self)
    }

    fn is_ok(&self) -> (r: bool)
        ensures
            r == (*self == 0),
    {
        *self == 0
    }

    fn is_err(&self) -> (r: bool)
        ensures
            r == (*self != 0),
    {
        *self != 0
    }
}

/// Error kinds for Kafka error codes.
///
/// This enum type contains all the kafka client-server errors, those errors that must be sent from the server to the client.
/// These are thus **part of the protocol**. The names can be changed but the error code cannot.
///
/// Note that client library will convert an unknown error code to the non-retriable variant if the client library
/// version is old and does not recognize the newly-added error code. Therefore when a new server-side error is added,
/// Kafka server may need extra logic to convert the new error code to another existing error code before sending the response back to
/// the client if the request version suggests that the client may not recognize the new error code.
///
/// Read [Kafka Protocol Guide](https://kafka.apache.org/protocol#protocol_error_codes) and
/// [Errors.java](https://github.com/apache/kafka/blob/6d7723f073/clients/src/main/java/org/apache/kafka/common/protocol/Errors.java#L135-L147) for more details.
#[derive(Debug, Clone, Copy, PartialEq, Eq, Structural)]
pub enum ResponseError {
    /// Client-side unknown error code.
    Unknown(i16),
    /// The server experienced an unexpected error when processing the request.
    UnknownServerError,
    /// The requested offset is not within the range of offsets maintained by the server.
    OffsetOutOfRange,
    /// This message has failed its CRC checksum, exceeds the valid size, has a null key for a compacted topic, or is otherwise corrupt.
    CorruptMessage,
    /// This server does not host this topic-partition.
    UnknownTopicOrPartition,
    /// The requested fetch size is invalid.
    InvalidFetchSize,
    /// There is no leader for this topic-partition as we are in the middle of a leadership election.
    LeaderNotAvailable,
    /// For requests intended only for the leader, this error indicates that the broker is not the current leader. For requests intended for any replica, this error indicates that the broker is not a replica of the topic partition.
    NotLeaderOrFollower,
    /// The request timed out.
    RequestTimedOut,
    /// The broker is not available.
    BrokerNotAvailable,
    /// The replica is not available for the requested topic-partition. Produce/Fetch requests and other requests intended only for the leader or follower return NOT_LEADER_OR_FOLLOWER if the broker is not a replica of the topic-partition.
    ReplicaNotAvailable,
    /// The request included a message larger than the max message size the server will accept.
    MessageTooLarge,
    /// The controller moved to another broker.
    StaleControllerEpoch,
    /// The metadata field of the offset request was too large.
    OffsetMetadataTooLarge,
    /// The server disconnected before a response was received.
    NetworkException,
    /// The coordinator is loading and hence can't process requests.
    CoordinatorLoadInProgress,
    /// The coordinator is not available.
    CoordinatorNotAvailable,
    /// This is not the correct coordinator.
    NotCoordinator,
    /// The request attempted to perform an operation on an invalid topic.
    InvalidTopicException,
    /// The request included message batch larger than the configured segment size on the server.
    RecordListTooLarge,
    /// Messages are rejected since there are fewer in-sync replicas than required.
    NotEnoughReplicas,
    /// Messages are written to the log, but to fewer in-sync replicas than required.
    NotEnoughReplicasAfterAppend,
    /// Produce request specified an invalid value for required acks.
    InvalidRequiredAcks,
    /// Specified group generation id is not valid.
    IllegalGeneration,
    /// The group member's supported protocols are incompatible with those of existing members or first group member tried to join with empty protocol type or empty protocol list.
    InconsistentGroupProtocol,
    /// The configured groupId is invalid.
    InvalidGroupId,
    /// The coordinator is not aware of this member.
    UnknownMemberId,
    /// The session timeout is not within the range allowed by the broker (as configured by group.min.session.timeout.ms and group.max.session.timeout.ms).
    InvalidSessionTimeout,
    /// The group is rebalancing, so a rejoin is needed.
    RebalanceInProgress,
    /// The committing offset data size is not valid.
    InvalidCommitOffsetSize,
    /// Topic authorization failed.
    TopicAuthorizationFailed,
    /// Group authorization failed.
    GroupAuthorizationFailed,
    /// Cluster authorization failed.
    ClusterAuthorizationFailed,
    /// The timestamp of the message is out of acceptable range.
    InvalidTimestamp,
    /// The broker does not support the requested SASL mechanism.
    UnsupportedSaslMechanism,
    /// Request is not valid given the current SASL state.
    IllegalSaslState,
    /// The version of API is not supported.
    UnsupportedVersion,
    /// Topic with this name already exists.
    TopicAlreadyExists,
    /// Number of partitions is below 1.
    InvalidPartitions,
    /// Replication factor is below 1 or larger than the number of available brokers.
    InvalidReplicationFactor,
    /// Replica assignment is invalid.
    InvalidReplicaAssignment,
    /// Configuration is invalid.
    InvalidConfig,
    /// This is not the correct controller for this cluster.
    NotController,
    /// This most likely occurs because of a request being malformed by the client library or the message was sent to an incompatible broker. See the broker logs for more details.
    InvalidRequest,
    /// The message format version on the broker does not support the request.
    UnsupportedForMessageFormat,
    /// Request parameters do not satisfy the configured policy.
    PolicyViolation,
    /// The broker received an out of order sequence number.
    OutOfOrderSequenceNumber,
    /// The broker received a duplicate sequence number.
    DuplicateSequenceNumber,
    /// Producer attempted to produce with an old epoch.
    InvalidProducerEpoch,
    /// The producer attempted a transactional operation in an invalid state.
    InvalidTxnState,
    /// The producer attempted to use a producer id which is not currently assigned to its transactional id.
    InvalidProducerIdMapping,
    /// The transaction timeout is larger than the maximum value allowed by the broker (as configured by transaction.max.timeout.ms).
    InvalidTransactionTimeout,
    /// The producer attempted to update a transaction while another concurrent operation on the same transaction was ongoing.
    ConcurrentTransactions,
    /// Indicates that the transaction coordinator sending a WriteTxnMarker is no longer the current coordinator for a given producer.
    TransactionCoordinatorFenced,
    /// Transactional Id authorization failed.
    TransactionalIdAuthorizationFailed,
    /// Security features are disabled.
    SecurityDisabled,
    /// The broker did not attempt to execute this operation. This may happen for batched RPCs where some operations in the batch failed, causing the broker to respond without trying the rest.
    OperationNotAttempted,
    /// Disk error when trying to access log file on the disk.
    KafkaStorageError,
    /// The user-specified log directory is not found in the broker config.
    LogDirNotFound,
    /// SASL Authentication failed.
    SaslAuthenticationFailed,
    /// This exception is raised by the broker if it could not locate the producer metadata associated with the producerId in question. This could happen if, for instance, the producer's records were deleted because their retention time had elapsed. Once the last records of the producerId are removed, the producer's metadata is removed from the broker, and future appends by the producer will return this exception.
    UnknownProducerId,
    /// A partition reassignment is in progress.
    ReassignmentInProgress,
    /// Delegation Token feature is not enabled.
    DelegationTokenAuthDisabled,
    /// Delegation Token is not found on server.
    DelegationTokenNotFound,
    /// Specified Principal is not valid Owner/Renewer.
    DelegationTokenOwnerMismatch,
    /// Delegation Token requests are not allowed on PLAINTEXT/1-way SSL channels and on delegation token authenticated channels.
    DelegationTokenRequestNotAllowed,
    /// Delegation Token authorization failed.
    DelegationTokenAuthorizationFailed,
    /// Delegation Token is expired.
    DelegationTokenExpired,
    /// Supplied principalType is not supported.
    InvalidPrincipalType,
    /// The group is not empty.
    NonEmptyGroup,
    /// The group id does not exist.
    GroupIdNotFound,
    /// The fetch session ID was not found.
    FetchSessionIdNotFound,
    /// The fetch session epoch is invalid.
    InvalidFetchSessionEpoch,
    /// There is no listener on the leader broker that matches the listener on which metadata request was processed.
    ListenerNotFound,
    /// Topic deletion is disabled.
    TopicDeletionDisabled,
    /// The leader epoch in the request is older than the epoch on the broker.
    FencedLeaderEpoch,
    /// The leader epoch in the request is newer than the epoch on the broker.
    UnknownLeaderEpoch,
    /// The requesting client does not support the compression type of given partition.
    UnsupportedCompressionType,
    /// Broker epoch has changed.
    StaleBrokerEpoch,
    /// The leader high watermark has not caught up from a recent leader election so the offsets cannot be guaranteed to be monotonically increasing.
    OffsetNotAvailable,
    /// The group member needs to have a valid member id before actually entering a consumer group.
    MemberIdRequired,
    /// The preferred leader was not available.
    PreferredLeaderNotAvailable,
    /// The consumer group has reached its max size.
    GroupMaxSizeReached,
    /// The broker rejected this static consumer since another consumer with the same group.instance.id has registered with a different member.id.
    FencedInstanceId,
    /// Eligible topic partition leaders are not available.
    EligibleLeadersNotAvailable,
    /// Leader election not needed for topic partition.
    ElectionNotNeeded,
    /// No partition reassignment is in progress.
    NoReassignmentInProgress,
    /// Deleting offsets of a topic is forbidden while the consumer group is actively subscribed to it.
    GroupSubscribedToTopic,
    /// This record has failed the validation on broker and hence will be rejected.
    InvalidRecord,
    /// There are unstable offsets that need to be cleared.
    UnstableOffsetCommit,
    /// The throttling quota has been exceeded.
    ThrottlingQuotaExceeded,
    /// There is a newer producer with the same transactionalId which fences the current one.
    ProducerFenced,
    /// A request illegally referred to a resource that does not exist.
    ResourceNotFound,
    /// A request illegally referred to the same resource twice.
    DuplicateResource,
    /// Requested credential would not meet criteria for acceptability.
    UnacceptableCredential,
    /// Indicates that the either the sender or recipient of a voter-only request is not one of the expected voters
    InconsistentVoterSet,
    /// The given update version was invalid.
    InvalidUpdateVersion,
    /// Unable to update finalized features due to an unexpected server error.
    FeatureUpdateFailed,
    /// Request principal deserialization failed during forwarding. This indicates an internal error on the broker cluster security setup.
    PrincipalDeserializationFailure,
    /// Requested snapshot was not found
    SnapshotNotFound,
    /// Requested position is not greater than or equal to zero, and less than the size of the snapshot.
    PositionOutOfRange,
    /// This server does not host this topic ID.
    UnknownTopicId,
    /// This broker ID is already in use.
    DuplicateBrokerRegistration,
    /// The given broker ID was not registered.
    BrokerIdNotRegistered,
    /// The log's topic ID did not match the topic ID in the request
    InconsistentTopicId,
    /// The clusterId in the request does not match that found on the server
    InconsistentClusterId,
    /// The transactionalId could not be found
    TransactionalIdNotFound,
    /// The fetch session encountered inconsistent topic ID usage
    FetchSessionTopicIdError,
    /// The new ISR contains at least one ineligible replica.
    IneligibleReplica,
    /// The AlterPartition request successfully updated the partition state but the leader has changed.
    NewLeaderElected,
    /// The requested offset is moved to tiered storage.
    OffsetMovedToTieredStorage,
    /// The member epoch is fenced by the group coordinator. The member must abandon all its partitions and rejoin.
    FencedMemberEpoch,
    /// The instance ID is still used by another member in the consumer group. That member must leave first.
    UnreleasedInstanceId,
    /// The assignor or its version range is not supported by the consumer group.
    UnsupportedAssignor,
    /// The member epoch is stale. The member must retry after receiving its updated member epoch via the ConsumerGroupHeartbeat API.
    StaleMemberEpoch,
    /// The request was sent to an endpoint of the wrong type.
    MismatchedEndpointType,
    /// This endpoint type is not supported yet.
    UnsupportedEndpointType,
    /// This controller ID is not known.
    UnknownControllerId,
    /// Client sent a push telemetry request with an invalid or outdated subscription ID.
    UnknownSubscriptionId,
    /// Client sent a push telemetry request larger than the maximum size the broker will accept.
    TelemetryTooLarge,
    /// The controller has considered the broker registration to be invalid.
    InvalidRegistration,
    /// The server encountered an error with the transaction. The client can abort the transaction to continue using this transactional ID.
    TransactionAbortable,
    /// The record state is invalid. The acknowledgement of delivery could not be completed.
    InvalidRecordState,
    /// The share session was not found.
    ShareSessionNotFound,
    /// The share session epoch is invalid.
    InvalidShareSessionEpoch,
    /// The share coordinator rejected the request because the share-group state epoch did not match.
    FencedStateEpoch,
    /// The voter key doesn't match the receiving replica's key.
    InvalidVoterKey,
    /// The voter is already part of the set of voters.
    DuplicateVoter,
    /// The voter is not part of the set of voters.
    VoterNotFound,
    /// The regular expression is not valid.
    InvalidRegularExpression,
    /// Client metadata is stale, client should rebootstrap to obtain new metadata.
    RebootstrapRequired,
    /// The supplied topology is invalid.
    StreamsInvalidTopology,
    /// The supplied topology epoch is invalid.
    StreamsInvalidTopologyEpoch,
    /// The supplied topology epoch is outdated.
    StreamsTopologyFenced,
    /// The limit of share sessions has been reached.
    ShareSessionLimitReached,
}

impl ResponseError {
    /// The codes that name an error of the protocol: `-1` and `1..=133`.
    pub open spec fn is_known_code(code: i16) -> bool {
        code == -1 || (1 <= code <= 133)
    }

    /// `r` is what the error code `code` stands for: nothing for `0`; else an
    /// error with that code, which is `Unknown` exactly when no error of the
    /// protocol has that code.
    pub open spec fn decodes(code: i16, r: Option<ResponseError>) -> bool {
        match r {
            None => code == 0,
            Some(e) => code != 0 && e.code_of() == code && (e is Unknown <==> !Self::is_known_code(code)),
        }
    }

    /// The error code of the error.
    pub open spec fn code_of(&self) -> i16 {
        match *self {
            ResponseError::Unknown(code) => code,
            ResponseError::UnknownServerError => -1i16,
            ResponseError::OffsetOutOfRange => 1,
            ResponseError::CorruptMessage => 2,
            ResponseError::UnknownTopicOrPartition => 3,
            ResponseError::InvalidFetchSize => 4,
            ResponseError::LeaderNotAvailable => 5,
            ResponseError::NotLeaderOrFollower => 6,
            ResponseError::RequestTimedOut => 7,
            ResponseError::BrokerNotAvailable => 8,
            ResponseError::ReplicaNotAvailable => 9,
            ResponseError::MessageTooLarge => 10,
            ResponseError::StaleControllerEpoch => 11,
            ResponseError::OffsetMetadataTooLarge => 12,
            ResponseError::NetworkException => 13,
            ResponseError::CoordinatorLoadInProgress => 14,
            ResponseError::CoordinatorNotAvailable => 15,
            ResponseError::NotCoordinator => 16,
            ResponseError::InvalidTopicException => 17,
            ResponseError::RecordListTooLarge => 18,
            ResponseError::NotEnoughReplicas => 19,
            ResponseError::NotEnoughReplicasAfterAppend => 20,
            ResponseError::InvalidRequiredAcks => 21,
            ResponseError::IllegalGeneration => 22,
            ResponseError::InconsistentGroupProtocol => 23,
            ResponseError::InvalidGroupId => 24,
            ResponseError::UnknownMemberId => 25,
            ResponseError::InvalidSessionTimeout => 26,
            ResponseError::RebalanceInProgress => 27,
            ResponseError::InvalidCommitOffsetSize => 28,
            ResponseError::TopicAuthorizationFailed => 29,
            ResponseError::GroupAuthorizationFailed => 30,
            ResponseError::ClusterAuthorizationFailed => 31,
            ResponseError::InvalidTimestamp => 32,
            ResponseError::UnsupportedSaslMechanism => 33,
            ResponseError::IllegalSaslState => 34,
            ResponseError::UnsupportedVersion => 35,
            ResponseError::TopicAlreadyExists => 36,
            ResponseError::InvalidPartitions => 37,
            ResponseError::InvalidReplicationFactor => 38,
            ResponseError::InvalidReplicaAssignment => 39,
            ResponseError::InvalidConfig => 40,
            ResponseError::NotController => 41,
            ResponseError::InvalidRequest => 42,
            ResponseError::UnsupportedForMessageFormat => 43,
            ResponseError::PolicyViolation => 44,
            ResponseError::OutOfOrderSequenceNumber => 45,
            ResponseError::DuplicateSequenceNumber => 46,
            ResponseError::InvalidProducerEpoch => 47,
            ResponseError::InvalidTxnState => 48,
            ResponseError::InvalidProducerIdMapping => 49,
            ResponseError::InvalidTransactionTimeout => 50,
            ResponseError::ConcurrentTransactions => 51,
            ResponseError::TransactionCoordinatorFenced => 52,
            ResponseError::TransactionalIdAuthorizationFailed => 53,
            ResponseError::SecurityDisabled => 54,
            ResponseError::OperationNotAttempted => 55,
            ResponseError::KafkaStorageError => 56,
            ResponseError::LogDirNotFound => 57,
            ResponseError::SaslAuthenticationFailed => 58,
            ResponseError::UnknownProducerId => 59,
            ResponseError::ReassignmentInProgress => 60,
            ResponseError::DelegationTokenAuthDisabled => 61,
            ResponseError::DelegationTokenNotFound => 62,
            ResponseError::DelegationTokenOwnerMismatch => 63,
            ResponseError::DelegationTokenRequestNotAllowed => 64,
            ResponseError::DelegationTokenAuthorizationFailed => 65,
            ResponseError::DelegationTokenExpired => 66,
            ResponseError::InvalidPrincipalType => 67,
            ResponseError::NonEmptyGroup => 68,
            ResponseError::GroupIdNotFound => 69,
            ResponseError::FetchSessionIdNotFound => 70,
            ResponseError::InvalidFetchSessionEpoch => 71,
            ResponseError::ListenerNotFound => 72,
            ResponseError::TopicDeletionDisabled => 73,
            ResponseError::FencedLeaderEpoch => 74,
            ResponseError::UnknownLeaderEpoch => 75,
            ResponseError::UnsupportedCompressionType => 76,
            ResponseError::StaleBrokerEpoch => 77,
            ResponseError::OffsetNotAvailable => 78,
            ResponseError::MemberIdRequired => 79,
            ResponseError::PreferredLeaderNotAvailable => 80,
            ResponseError::GroupMaxSizeReached => 81,
            ResponseError::FencedInstanceId => 82,
            ResponseError::EligibleLeadersNotAvailable => 83,
            ResponseError::ElectionNotNeeded => 84,
            ResponseError::NoReassignmentInProgress => 85,
            ResponseError::GroupSubscribedToTopic => 86,
            ResponseError::InvalidRecord => 87,
            ResponseError::UnstableOffsetCommit => 88,
            ResponseError::ThrottlingQuotaExceeded => 89,
            ResponseError::ProducerFenced => 90,
            ResponseError::ResourceNotFound => 91,
            ResponseError::DuplicateResource => 92,
            ResponseError::UnacceptableCredential => 93,
            ResponseError::InconsistentVoterSet => 94,
            ResponseError::InvalidUpdateVersion => 95,
            ResponseError::FeatureUpdateFailed => 96,
            ResponseError::PrincipalDeserializationFailure => 97,
            ResponseError::SnapshotNotFound => 98,
            ResponseError::PositionOutOfRange => 99,
            ResponseError::UnknownTopicId => 100,
            ResponseError::DuplicateBrokerRegistration => 101,
            ResponseError::BrokerIdNotRegistered => 102,
            ResponseError::InconsistentTopicId => 103,
            ResponseError::InconsistentClusterId => 104,
            ResponseError::TransactionalIdNotFound => 105,
            ResponseError::FetchSessionTopicIdError => 106,
            ResponseError::IneligibleReplica => 107,
            ResponseError::NewLeaderElected => 108,
            ResponseError::OffsetMovedToTieredStorage => 109,
            ResponseError::FencedMemberEpoch => 110,
            ResponseError::UnreleasedInstanceId => 111,
            ResponseError::UnsupportedAssignor => 112,
            ResponseError::StaleMemberEpoch => 113,
            ResponseError::MismatchedEndpointType => 114,
            ResponseError::UnsupportedEndpointType => 115,
            ResponseError::UnknownControllerId => 116,
            ResponseError::UnknownSubscriptionId => 117,
            ResponseError::TelemetryTooLarge => 118,
            ResponseError::InvalidRegistration => 119,
            ResponseError::TransactionAbortable => 120,
            ResponseError::InvalidRecordState => 121,
            ResponseError::ShareSessionNotFound => 122,
            ResponseError::InvalidShareSessionEpoch => 123,
            ResponseError::FencedStateEpoch => 124,
            ResponseError::InvalidVoterKey => 125,
            ResponseError::DuplicateVoter => 126,
            ResponseError::VoterNotFound => 127,
            ResponseError::InvalidRegularExpression => 128,
            ResponseError::RebootstrapRequired => 129,
            ResponseError::StreamsInvalidTopology => 130,
            ResponseError::StreamsInvalidTopologyEpoch => 131,
            ResponseError::StreamsTopologyFenced => 132,
            ResponseError::ShareSessionLimitReached => 133,
        }
    }

    /// Whether the protocol defines the error as retriable.
    pub open spec fn retriable(&self) -> bool {
        match *self {
            ResponseError::Unknown(_) => false,
            ResponseError::UnknownServerError => false,
            ResponseError::OffsetOutOfRange => false,
            ResponseError::CorruptMessage => true,
            ResponseError::UnknownTopicOrPartition => true,
            ResponseError::InvalidFetchSize => false,
            ResponseError::LeaderNotAvailable => true,
            ResponseError::NotLeaderOrFollower => true,
            ResponseError::RequestTimedOut => true,
            ResponseError::BrokerNotAvailable => false,
            ResponseError::ReplicaNotAvailable => true,
            ResponseError::MessageTooLarge => false,
            ResponseError::StaleControllerEpoch => false,
            ResponseError::OffsetMetadataTooLarge => false,
            ResponseError::NetworkException => true,
            ResponseError::CoordinatorLoadInProgress => true,
            ResponseError::CoordinatorNotAvailable => true,
            ResponseError::NotCoordinator => true,
            ResponseError::InvalidTopicException => false,
            ResponseError::RecordListTooLarge => false,
            ResponseError::NotEnoughReplicas => true,
            ResponseError::NotEnoughReplicasAfterAppend => true,
            ResponseError::InvalidRequiredAcks => false,
            ResponseError::IllegalGeneration => false,
            ResponseError::InconsistentGroupProtocol => false,
            ResponseError::InvalidGroupId => false,
            ResponseError::UnknownMemberId => false,
            ResponseError::InvalidSessionTimeout => false,
            ResponseError::RebalanceInProgress => false,
            ResponseError::InvalidCommitOffsetSize => false,
            ResponseError::TopicAuthorizationFailed => false,
            ResponseError::GroupAuthorizationFailed => false,
            ResponseError::ClusterAuthorizationFailed => false,
            ResponseError::InvalidTimestamp => false,
            ResponseError::UnsupportedSaslMechanism => false,
            ResponseError::IllegalSaslState => false,
            ResponseError::UnsupportedVersion => false,
            ResponseError::TopicAlreadyExists => false,
            ResponseError::InvalidPartitions => false,
            ResponseError::InvalidReplicationFactor => false,
            ResponseError::InvalidReplicaAssignment => false,
            ResponseError::InvalidConfig => false,
            ResponseError::NotController => true,
            ResponseError::InvalidRequest => false,
            ResponseError::UnsupportedForMessageFormat => false,
            ResponseError::PolicyViolation => false,
            ResponseError::OutOfOrderSequenceNumber => false,
            ResponseError::DuplicateSequenceNumber => false,
            ResponseError::InvalidProducerEpoch => false,
            ResponseError::InvalidTxnState => false,
            ResponseError::InvalidProducerIdMapping => false,
            ResponseError::InvalidTransactionTimeout => false,
            ResponseError::ConcurrentTransactions => false,
            ResponseError::TransactionCoordinatorFenced => false,
            ResponseError::TransactionalIdAuthorizationFailed => false,
            ResponseError::SecurityDisabled => false,
            ResponseError::OperationNotAttempted => false,
            ResponseError::KafkaStorageError => true,
            ResponseError::LogDirNotFound => false,
            ResponseError::SaslAuthenticationFailed => false,
            ResponseError::UnknownProducerId => false,
            ResponseError::ReassignmentInProgress => false,
            ResponseError::DelegationTokenAuthDisabled => false,
            ResponseError::DelegationTokenNotFound => false,
            ResponseError::DelegationTokenOwnerMismatch => false,
            ResponseError::DelegationTokenRequestNotAllowed => false,
            ResponseError::DelegationTokenAuthorizationFailed => false,
            ResponseError::DelegationTokenExpired => false,
            ResponseError::InvalidPrincipalType => false,
            ResponseError::NonEmptyGroup => false,
            ResponseError::GroupIdNotFound => false,
            ResponseError::FetchSessionIdNotFound => true,
            ResponseError::InvalidFetchSessionEpoch => true,
            ResponseError::ListenerNotFound => true,
            ResponseError::TopicDeletionDisabled => false,
            ResponseError::FencedLeaderEpoch => true,
            ResponseError::UnknownLeaderEpoch => true,
            ResponseError::UnsupportedCompressionType => false,
            ResponseError::StaleBrokerEpoch => false,
            ResponseError::OffsetNotAvailable => true,
            ResponseError::MemberIdRequired => false,
            ResponseError::PreferredLeaderNotAvailable => true,
            ResponseError::GroupMaxSizeReached => false,
            ResponseError::FencedInstanceId => false,
            ResponseError::EligibleLeadersNotAvailable => true,
            ResponseError::ElectionNotNeeded => true,
            ResponseError::NoReassignmentInProgress => false,
            ResponseError::GroupSubscribedToTopic => false,
            ResponseError::InvalidRecord => false,
            ResponseError::UnstableOffsetCommit => true,
            ResponseError::ThrottlingQuotaExceeded => true,
            ResponseError::ProducerFenced => false,
            ResponseError::ResourceNotFound => false,
            ResponseError::DuplicateResource => false,
            ResponseError::UnacceptableCredential => false,
            ResponseError::InconsistentVoterSet => false,
            ResponseError::InvalidUpdateVersion => false,
            ResponseError::FeatureUpdateFailed => false,
            ResponseError::PrincipalDeserializationFailure => false,
            ResponseError::SnapshotNotFound => false,
            ResponseError::PositionOutOfRange => false,
            ResponseError::UnknownTopicId => true,
            ResponseError::DuplicateBrokerRegistration => false,
            ResponseError::BrokerIdNotRegistered => false,
            ResponseError::InconsistentTopicId => true,
            ResponseError::InconsistentClusterId => false,
            ResponseError::TransactionalIdNotFound => false,
            ResponseError::FetchSessionTopicIdError => true,
            ResponseError::IneligibleReplica => false,
            ResponseError::NewLeaderElected => false,
            ResponseError::OffsetMovedToTieredStorage => false,
            ResponseError::FencedMemberEpoch => false,
            ResponseError::UnreleasedInstanceId => false,
            ResponseError::UnsupportedAssignor => false,
            ResponseError::StaleMemberEpoch => false,
            ResponseError::MismatchedEndpointType => false,
            ResponseError::UnsupportedEndpointType => false,
            ResponseError::UnknownControllerId => false,
            ResponseError::UnknownSubscriptionId => false,
            ResponseError::TelemetryTooLarge => false,
            ResponseError::InvalidRegistration => false,
            ResponseError::TransactionAbortable => false,
            ResponseError::InvalidRecordState => false,
            ResponseError::ShareSessionNotFound => true,
            ResponseError::InvalidShareSessionEpoch => true,
            ResponseError::FencedStateEpoch => false,
            ResponseError::InvalidVoterKey => false,
            ResponseError::DuplicateVoter => false,
            ResponseError::VoterNotFound => false,
            ResponseError::InvalidRegularExpression => false,
            ResponseError::RebootstrapRequired => false,
            ResponseError::StreamsInvalidTopology => false,
            ResponseError::StreamsInvalidTopologyEpoch => false,
            ResponseError::StreamsTopologyFenced => false,
            ResponseError::ShareSessionLimitReached => true,
        }
    }

    /// The name of the error; `Unknown` has none.
    pub open spec fn name(&self) -> &'static str {
        match *self {
            ResponseError::Unknown(_) => "Unknown",
            ResponseError::UnknownServerError => "UnknownServerError",
            ResponseError::OffsetOutOfRange => "OffsetOutOfRange",
            ResponseError::CorruptMessage => "CorruptMessage",
            ResponseError::UnknownTopicOrPartition => "UnknownTopicOrPartition",
            ResponseError::InvalidFetchSize => "InvalidFetchSize",
            ResponseError::LeaderNotAvailable => "LeaderNotAvailable",
            ResponseError::NotLeaderOrFollower => "NotLeaderOrFollower",
            ResponseError::RequestTimedOut => "RequestTimedOut",
            ResponseError::BrokerNotAvailable => "BrokerNotAvailable",
            ResponseError::ReplicaNotAvailable => "ReplicaNotAvailable",
            ResponseError::MessageTooLarge => "MessageTooLarge",
            ResponseError::StaleControllerEpoch => "StaleControllerEpoch",
            ResponseError::OffsetMetadataTooLarge => "OffsetMetadataTooLarge",
            ResponseError::NetworkException => "NetworkException",
            ResponseError::CoordinatorLoadInProgress => "CoordinatorLoadInProgress",
            ResponseError::CoordinatorNotAvailable => "CoordinatorNotAvailable",
            ResponseError::NotCoordinator => "NotCoordinator",
            ResponseError::InvalidTopicException => "InvalidTopicException",
            ResponseError::RecordListTooLarge => "RecordListTooLarge",
            ResponseError::NotEnoughReplicas => "NotEnoughReplicas",
            ResponseError::NotEnoughReplicasAfterAppend => "NotEnoughReplicasAfterAppend",
            ResponseError::InvalidRequiredAcks => "InvalidRequiredAcks",
            ResponseError::IllegalGeneration => "IllegalGeneration",
            ResponseError::InconsistentGroupProtocol => "InconsistentGroupProtocol",
            ResponseError::InvalidGroupId => "InvalidGroupId",
            ResponseError::UnknownMemberId => "UnknownMemberId",
            ResponseError::InvalidSessionTimeout => "InvalidSessionTimeout",
            ResponseError::RebalanceInProgress => "RebalanceInProgress",
            ResponseError::InvalidCommitOffsetSize => "InvalidCommitOffsetSize",
            ResponseError::TopicAuthorizationFailed => "TopicAuthorizationFailed",
            ResponseError::GroupAuthorizationFailed => "GroupAuthorizationFailed",
            ResponseError::ClusterAuthorizationFailed => "ClusterAuthorizationFailed",
            ResponseError::InvalidTimestamp => "InvalidTimestamp",
            ResponseError::UnsupportedSaslMechanism => "UnsupportedSaslMechanism",
            ResponseError::IllegalSaslState => "IllegalSaslState",
            ResponseError::UnsupportedVersion => "UnsupportedVersion",
            ResponseError::TopicAlreadyExists => "TopicAlreadyExists",
            ResponseError::InvalidPartitions => "InvalidPartitions",
            ResponseError::InvalidReplicationFactor => "InvalidReplicationFactor",
            ResponseError::InvalidReplicaAssignment => "InvalidReplicaAssignment",
            ResponseError::InvalidConfig => "InvalidConfig",
            ResponseError::NotController => "NotController",
            ResponseError::InvalidRequest => "InvalidRequest",
            ResponseError::UnsupportedForMessageFormat => "UnsupportedForMessageFormat",
            ResponseError::PolicyViolation => "PolicyViolation",
            ResponseError::OutOfOrderSequenceNumber => "OutOfOrderSequenceNumber",
            ResponseError::DuplicateSequenceNumber => "DuplicateSequenceNumber",
            ResponseError::InvalidProducerEpoch => "InvalidProducerEpoch",
            ResponseError::InvalidTxnState => "InvalidTxnState",
            ResponseError::InvalidProducerIdMapping => "InvalidProducerIdMapping",
            ResponseError::InvalidTransactionTimeout => "InvalidTransactionTimeout",
            ResponseError::ConcurrentTransactions => "ConcurrentTransactions",
            ResponseError::TransactionCoordinatorFenced => "TransactionCoordinatorFenced",
            ResponseError::TransactionalIdAuthorizationFailed => "TransactionalIdAuthorizationFailed",
            ResponseError::SecurityDisabled => "SecurityDisabled",
            ResponseError::OperationNotAttempted => "OperationNotAttempted",
            ResponseError::KafkaStorageError => "KafkaStorageError",
            ResponseError::LogDirNotFound => "LogDirNotFound",
            ResponseError::SaslAuthenticationFailed => "SaslAuthenticationFailed",
            ResponseError::UnknownProducerId => "UnknownProducerId",
            ResponseError::ReassignmentInProgress => "ReassignmentInProgress",
            ResponseError::DelegationTokenAuthDisabled => "DelegationTokenAuthDisabled",
            ResponseError::DelegationTokenNotFound => "DelegationTokenNotFound",
            ResponseError::DelegationTokenOwnerMismatch => "DelegationTokenOwnerMismatch",
            ResponseError::DelegationTokenRequestNotAllowed => "DelegationTokenRequestNotAllowed",
            ResponseError::DelegationTokenAuthorizationFailed => "DelegationTokenAuthorizationFailed",
            ResponseError::DelegationTokenExpired => "DelegationTokenExpired",
            ResponseError::InvalidPrincipalType => "InvalidPrincipalType",
            ResponseError::NonEmptyGroup => "NonEmptyGroup",
            ResponseError::GroupIdNotFound => "GroupIdNotFound",
            ResponseError::FetchSessionIdNotFound => "FetchSessionIdNotFound",
            ResponseError::InvalidFetchSessionEpoch => "InvalidFetchSessionEpoch",
            ResponseError::ListenerNotFound => "ListenerNotFound",
            ResponseError::TopicDeletionDisabled => "TopicDeletionDisabled",
            ResponseError::FencedLeaderEpoch => "FencedLeaderEpoch",
            ResponseError::UnknownLeaderEpoch => "UnknownLeaderEpoch",
            ResponseError::UnsupportedCompressionType => "UnsupportedCompressionType",
            ResponseError::StaleBrokerEpoch => "StaleBrokerEpoch",
            ResponseError::OffsetNotAvailable => "OffsetNotAvailable",
            ResponseError::MemberIdRequired => "MemberIdRequired",
            ResponseError::PreferredLeaderNotAvailable => "PreferredLeaderNotAvailable",
            ResponseError::GroupMaxSizeReached => "GroupMaxSizeReached",
            ResponseError::FencedInstanceId => "FencedInstanceId",
            ResponseError::EligibleLeadersNotAvailable => "EligibleLeadersNotAvailable",
            ResponseError::ElectionNotNeeded => "ElectionNotNeeded",
            ResponseError::NoReassignmentInProgress => "NoReassignmentInProgress",
            ResponseError::GroupSubscribedToTopic => "GroupSubscribedToTopic",
            ResponseError::InvalidRecord => "InvalidRecord",
            ResponseError::UnstableOffsetCommit => "UnstableOffsetCommit",
            ResponseError::ThrottlingQuotaExceeded => "ThrottlingQuotaExceeded",
            ResponseError::ProducerFenced => "ProducerFenced",
            ResponseError::ResourceNotFound => "ResourceNotFound",
            ResponseError::DuplicateResource => "DuplicateResource",
            ResponseError::UnacceptableCredential => "UnacceptableCredential",
            ResponseError::InconsistentVoterSet => "InconsistentVoterSet",
            ResponseError::InvalidUpdateVersion => "InvalidUpdateVersion",
            ResponseError::FeatureUpdateFailed => "FeatureUpdateFailed",
            ResponseError::PrincipalDeserializationFailure => "PrincipalDeserializationFailure",
            ResponseError::SnapshotNotFound => "SnapshotNotFound",
            ResponseError::PositionOutOfRange => "PositionOutOfRange",
            ResponseError::UnknownTopicId => "UnknownTopicId",
            ResponseError::DuplicateBrokerRegistration => "DuplicateBrokerRegistration",
            ResponseError::BrokerIdNotRegistered => "BrokerIdNotRegistered",
            ResponseError::InconsistentTopicId => "InconsistentTopicId",
            ResponseError::InconsistentClusterId => "InconsistentClusterId",
            ResponseError::TransactionalIdNotFound => "TransactionalIdNotFound",
            ResponseError::FetchSessionTopicIdError => "FetchSessionTopicIdError",
            ResponseError::IneligibleReplica => "IneligibleReplica",
            ResponseError::NewLeaderElected => "NewLeaderElected",
            ResponseError::OffsetMovedToTieredStorage => "OffsetMovedToTieredStorage",
            ResponseError::FencedMemberEpoch => "FencedMemberEpoch",
            ResponseError::UnreleasedInstanceId => "UnreleasedInstanceId",
            ResponseError::UnsupportedAssignor => "UnsupportedAssignor",
            ResponseError::StaleMemberEpoch => "StaleMemberEpoch",
            ResponseError::MismatchedEndpointType => "MismatchedEndpointType",
            ResponseError::UnsupportedEndpointType => "UnsupportedEndpointType",
            ResponseError::UnknownControllerId => "UnknownControllerId",
            ResponseError::UnknownSubscriptionId => "UnknownSubscriptionId",
            ResponseError::TelemetryTooLarge => "TelemetryTooLarge",
            ResponseError::InvalidRegistration => "InvalidRegistration",
            ResponseError::TransactionAbortable => "TransactionAbortable",
            ResponseError::InvalidRecordState => "InvalidRecordState",
            ResponseError::ShareSessionNotFound => "ShareSessionNotFound",
            ResponseError::InvalidShareSessionEpoch => "InvalidShareSessionEpoch",
            ResponseError::FencedStateEpoch => "FencedStateEpoch",
            ResponseError::InvalidVoterKey => "InvalidVoterKey",
            ResponseError::DuplicateVoter => "DuplicateVoter",
            ResponseError::VoterNotFound => "VoterNotFound",
            ResponseError::InvalidRegularExpression => "InvalidRegularExpression",
            ResponseError::RebootstrapRequired => "RebootstrapRequired",
            ResponseError::StreamsInvalidTopology => "StreamsInvalidTopology",
            ResponseError::StreamsInvalidTopologyEpoch => "StreamsInvalidTopologyEpoch",
            ResponseError::StreamsTopologyFenced => "StreamsTopologyFenced",
            ResponseError::ShareSessionLimitReached => "ShareSessionLimitReached",
        }
    }

    spec fn named_from_code(code: i16) -> ResponseError {
        match code {
            -1 => ResponseError::UnknownServerError,
            1 => ResponseError::OffsetOutOfRange,
            2 => ResponseError::CorruptMessage,
            3 => ResponseError::UnknownTopicOrPartition,
            4 => ResponseError::InvalidFetchSize,
            5 => ResponseError::LeaderNotAvailable,
            6 => ResponseError::NotLeaderOrFollower,
            7 => ResponseError::RequestTimedOut,
            8 => ResponseError::BrokerNotAvailable,
            9 => ResponseError::ReplicaNotAvailable,
            10 => ResponseError::MessageTooLarge,
            11 => ResponseError::StaleControllerEpoch,
            12 => ResponseError::OffsetMetadataTooLarge,
            13 => ResponseError::NetworkException,
            14 => ResponseError::CoordinatorLoadInProgress,
            15 => ResponseError::CoordinatorNotAvailable,
            16 => ResponseError::NotCoordinator,
            17 => ResponseError::InvalidTopicException,
            18 => ResponseError::RecordListTooLarge,
            19 => ResponseError::NotEnoughReplicas,
            20 => ResponseError::NotEnoughReplicasAfterAppend,
            21 => ResponseError::InvalidRequiredAcks,
            22 => ResponseError::IllegalGeneration,
            23 => ResponseError::InconsistentGroupProtocol,
            24 => ResponseError::InvalidGroupId,
            25 => ResponseError::UnknownMemberId,
            26 => ResponseError::InvalidSessionTimeout,
            27 => ResponseError::RebalanceInProgress,
            28 => ResponseError::InvalidCommitOffsetSize,
            29 => ResponseError::TopicAuthorizationFailed,
            30 => ResponseError::GroupAuthorizationFailed,
            31 => ResponseError::ClusterAuthorizationFailed,
            32 => ResponseError::InvalidTimestamp,
            33 => ResponseError::UnsupportedSaslMechanism,
            34 => ResponseError::IllegalSaslState,
            35 => ResponseError::UnsupportedVersion,
            36 => ResponseError::TopicAlreadyExists,
            37 => ResponseError::InvalidPartitions,
            38 => ResponseError::InvalidReplicationFactor,
            39 => ResponseError::InvalidReplicaAssignment,
            40 => ResponseError::InvalidConfig,
            41 => ResponseError::NotController,
            42 => ResponseError::InvalidRequest,
            43 => ResponseError::UnsupportedForMessageFormat,
            44 => ResponseError::PolicyViolation,
            45 => ResponseError::OutOfOrderSequenceNumber,
            46 => ResponseError::DuplicateSequenceNumber,
            47 => ResponseError::InvalidProducerEpoch,
            48 => ResponseError::InvalidTxnState,
            49 => ResponseError::InvalidProducerIdMapping,
            50 => ResponseError::InvalidTransactionTimeout,
            51 => ResponseError::ConcurrentTransactions,
            52 => ResponseError::TransactionCoordinatorFenced,
            53 => ResponseError::TransactionalIdAuthorizationFailed,
            54 => ResponseError::SecurityDisabled,
            55 => ResponseError::OperationNotAttempted,
            56 => ResponseError::KafkaStorageError,
            57 => ResponseError::LogDirNotFound,
            58 => ResponseError::SaslAuthenticationFailed,
            59 => ResponseError::UnknownProducerId,
            60 => ResponseError::ReassignmentInProgress,
            61 => ResponseError::DelegationTokenAuthDisabled,
            62 => ResponseError::DelegationTokenNotFound,
            63 => ResponseError::DelegationTokenOwnerMismatch,
            64 => ResponseError::DelegationTokenRequestNotAllowed,
            65 => ResponseError::DelegationTokenAuthorizationFailed,
            66 => ResponseError::DelegationTokenExpired,
            67 => ResponseError::InvalidPrincipalType,
            68 => ResponseError::NonEmptyGroup,
            69 => ResponseError::GroupIdNotFound,
            70 => ResponseError::FetchSessionIdNotFound,
            71 => ResponseError::InvalidFetchSessionEpoch,
            72 => ResponseError::ListenerNotFound,
            73 => ResponseError::TopicDeletionDisabled,
            74 => ResponseError::FencedLeaderEpoch,
            75 => ResponseError::UnknownLeaderEpoch,
            76 => ResponseError::UnsupportedCompressionType,
            77 => ResponseError::StaleBrokerEpoch,
            78 => ResponseError::OffsetNotAvailable,
            79 => ResponseError::MemberIdRequired,
            80 => ResponseError::PreferredLeaderNotAvailable,
            81 => ResponseError::GroupMaxSizeReached,
            82 => ResponseError::FencedInstanceId,
            83 => ResponseError::EligibleLeadersNotAvailable,
            84 => ResponseError::ElectionNotNeeded,
            85 => ResponseError::NoReassignmentInProgress,
            86 => ResponseError::GroupSubscribedToTopic,
            87 => ResponseError::InvalidRecord,
            88 => ResponseError::UnstableOffsetCommit,
            89 => ResponseError::ThrottlingQuotaExceeded,
            90 => ResponseError::ProducerFenced,
            91 => ResponseError::ResourceNotFound,
            92 => ResponseError::DuplicateResource,
            93 => ResponseError::UnacceptableCredential,
            94 => ResponseError::InconsistentVoterSet,
            95 => ResponseError::InvalidUpdateVersion,
            96 => ResponseError::FeatureUpdateFailed,
            97 => ResponseError::PrincipalDeserializationFailure,
            98 => ResponseError::SnapshotNotFound,
            99 => ResponseError::PositionOutOfRange,
            100 => ResponseError::UnknownTopicId,
            101 => ResponseError::DuplicateBrokerRegistration,
            102 => ResponseError::BrokerIdNotRegistered,
            103 => ResponseError::InconsistentTopicId,
            104 => ResponseError::InconsistentClusterId,
            105 => ResponseError::TransactionalIdNotFound,
            106 => ResponseError::FetchSessionTopicIdError,
            107 => ResponseError::IneligibleReplica,
            108 => ResponseError::NewLeaderElected,
            109 => ResponseError::OffsetMovedToTieredStorage,
            110 => ResponseError::FencedMemberEpoch,
            111 => ResponseError::UnreleasedInstanceId,
            112 => ResponseError::UnsupportedAssignor,
            113 => ResponseError::StaleMemberEpoch,
            114 => ResponseError::MismatchedEndpointType,
            115 => ResponseError::UnsupportedEndpointType,
            116 => ResponseError::UnknownControllerId,
            117 => ResponseError::UnknownSubscriptionId,
            118 => ResponseError::TelemetryTooLarge,
            119 => ResponseError::InvalidRegistration,
            120 => ResponseError::TransactionAbortable,
            121 => ResponseError::InvalidRecordState,
            122 => ResponseError::ShareSessionNotFound,
            123 => ResponseError::InvalidShareSessionEpoch,
            124 => ResponseError::FencedStateEpoch,
            125 => ResponseError::InvalidVoterKey,
            126 => ResponseError::DuplicateVoter,
            127 => ResponseError::VoterNotFound,
            128 => ResponseError::InvalidRegularExpression,
            129 => ResponseError::RebootstrapRequired,
            130 => ResponseError::StreamsInvalidTopology,
            131 => ResponseError::StreamsInvalidTopologyEpoch,
            132 => ResponseError::StreamsTopologyFenced,
            133 => ResponseError::ShareSessionLimitReached,
            _ => ResponseError::Unknown(code),
        }
    }

    /// Try to convert an `i16` Kafka error code to an `ResponseError` variant.
    ///
    /// Returns `None` if the error `code` is `0`.
    /// Otherwise, the `Some(ResponseError)` is returned.
    pub fn try_from_code(code: i16) -> (r: Option<Self>)
        ensures
            Self::decodes(code, r),
    {
        match code {
            0 => None,
            -1 => Some(ResponseError::UnknownServerError),
            1 => Some(ResponseError::OffsetOutOfRange),
            2 => Some(ResponseError::CorruptMessage),
            3 => Some(ResponseError::UnknownTopicOrPartition),
            4 => Some(ResponseError::InvalidFetchSize),
            5 => Some(ResponseError::LeaderNotAvailable),
            6 => Some(ResponseError::NotLeaderOrFollower),
            7 => Some(ResponseError::RequestTimedOut),
            8 => Some(ResponseError::BrokerNotAvailable),
            9 => Some(ResponseError::ReplicaNotAvailable),
            10 => Some(ResponseError::MessageTooLarge),
            11 => Some(ResponseError::StaleControllerEpoch),
            12 => Some(ResponseError::OffsetMetadataTooLarge),
            13 => Some(ResponseError::NetworkException),
            14 => Some(ResponseError::CoordinatorLoadInProgress),
            15 => Some(ResponseError::CoordinatorNotAvailable),
            16 => Some(ResponseError::NotCoordinator),
            17 => Some(ResponseError::InvalidTopicException),
            18 => Some(ResponseError::RecordListTooLarge),
            19 => Some(ResponseError::NotEnoughReplicas),
            20 => Some(ResponseError::NotEnoughReplicasAfterAppend),
            21 => Some(ResponseError::InvalidRequiredAcks),
            22 => Some(ResponseError::IllegalGeneration),
            23 => Some(ResponseError::InconsistentGroupProtocol),
            24 => Some(ResponseError::InvalidGroupId),
            25 => Some(ResponseError::UnknownMemberId),
            26 => Some(ResponseError::InvalidSessionTimeout),
            27 => Some(ResponseError::RebalanceInProgress),
            28 => Some(ResponseError::InvalidCommitOffsetSize),
            29 => Some(ResponseError::TopicAuthorizationFailed),
            30 => Some(ResponseError::GroupAuthorizationFailed),
            31 => Some(ResponseError::ClusterAuthorizationFailed),
            32 => Some(ResponseError::InvalidTimestamp),
            33 => Some(ResponseError::UnsupportedSaslMechanism),
            34 => Some(ResponseError::IllegalSaslState),
            35 => Some(ResponseError::UnsupportedVersion),
            36 => Some(ResponseError::TopicAlreadyExists),
            37 => Some(ResponseError::InvalidPartitions),
            38 => Some(ResponseError::InvalidReplicationFactor),
            39 => Some(ResponseError::InvalidReplicaAssignment),
            40 => Some(ResponseError::InvalidConfig),
            41 => Some(ResponseError::NotController),
            42 => Some(ResponseError::InvalidRequest),
            43 => Some(ResponseError::UnsupportedForMessageFormat),
            44 => Some(ResponseError::PolicyViolation),
            45 => Some(ResponseError::OutOfOrderSequenceNumber),
            46 => Some(ResponseError::DuplicateSequenceNumber),
            47 => Some(ResponseError::InvalidProducerEpoch),
            48 => Some(ResponseError::InvalidTxnState),
            49 => Some(ResponseError::InvalidProducerIdMapping),
            50 => Some(ResponseError::InvalidTransactionTimeout),
            51 => Some(ResponseError::ConcurrentTransactions),
            52 => Some(ResponseError::TransactionCoordinatorFenced),
            53 => Some(ResponseError::TransactionalIdAuthorizationFailed),
            54 => Some(ResponseError::SecurityDisabled),
            55 => Some(ResponseError::OperationNotAttempted),
            56 => Some(ResponseError::KafkaStorageError),
            57 => Some(ResponseError::LogDirNotFound),
            58 => Some(ResponseError::SaslAuthenticationFailed),
            59 => Some(ResponseError::UnknownProducerId),
            60 => Some(ResponseError::ReassignmentInProgress),
            61 => Some(ResponseError::DelegationTokenAuthDisabled),
            62 => Some(ResponseError::DelegationTokenNotFound),
            63 => Some(ResponseError::DelegationTokenOwnerMismatch),
            64 => Some(ResponseError::DelegationTokenRequestNotAllowed),
            65 => Some(ResponseError::DelegationTokenAuthorizationFailed),
            66 => Some(ResponseError::DelegationTokenExpired),
            67 => Some(ResponseError::InvalidPrincipalType),
            68 => Some(ResponseError::NonEmptyGroup),
            69 => Some(ResponseError::GroupIdNotFound),
            70 => Some(ResponseError::FetchSessionIdNotFound),
            71 => Some(ResponseError::InvalidFetchSessionEpoch),
            72 => Some(ResponseError::ListenerNotFound),
            73 => Some(ResponseError::TopicDeletionDisabled),
            74 => Some(ResponseError::FencedLeaderEpoch),
            75 => Some(ResponseError::UnknownLeaderEpoch),
            76 => Some(ResponseError::UnsupportedCompressionType),
            77 => Some(ResponseError::StaleBrokerEpoch),
            78 => Some(ResponseError::OffsetNotAvailable),
            79 => Some(ResponseError::MemberIdRequired),
            80 => Some(ResponseError::PreferredLeaderNotAvailable),
            81 => Some(ResponseError::GroupMaxSizeReached),
            82 => Some(ResponseError::FencedInstanceId),
            83 => Some(ResponseError::EligibleLeadersNotAvailable),
            84 => Some(ResponseError::ElectionNotNeeded),
            85 => Some(ResponseError::NoReassignmentInProgress),
            86 => Some(ResponseError::GroupSubscribedToTopic),
            87 => Some(ResponseError::InvalidRecord),
            88 => Some(ResponseError::UnstableOffsetCommit),
            89 => Some(ResponseError::ThrottlingQuotaExceeded),
            90 => Some(ResponseError::ProducerFenced),
            91 => Some(ResponseError::ResourceNotFound),
            92 => Some(ResponseError::DuplicateResource),
            93 => Some(ResponseError::UnacceptableCredential),
            94 => Some(ResponseError::InconsistentVoterSet),
            95 => Some(ResponseError::InvalidUpdateVersion),
            96 => Some(ResponseError::FeatureUpdateFailed),
            97 => Some(ResponseError::PrincipalDeserializationFailure),
            98 => Some(ResponseError::SnapshotNotFound),
            99 => Some(ResponseError::PositionOutOfRange),
            100 => Some(ResponseError::UnknownTopicId),
            101 => Some(ResponseError::DuplicateBrokerRegistration),
            102 => Some(ResponseError::BrokerIdNotRegistered),
            103 => Some(ResponseError::InconsistentTopicId),
            104 => Some(ResponseError::InconsistentClusterId),
            105 => Some(ResponseError::TransactionalIdNotFound),
            106 => Some(ResponseError::FetchSessionTopicIdError),
            107 => Some(ResponseError::IneligibleReplica),
            108 => Some(ResponseError::NewLeaderElected),
            109 => Some(ResponseError::OffsetMovedToTieredStorage),
            110 => Some(ResponseError::FencedMemberEpoch),
            111 => Some(ResponseError::UnreleasedInstanceId),
            112 => Some(ResponseError::UnsupportedAssignor),
            113 => Some(ResponseError::StaleMemberEpoch),
            114 => Some(ResponseError::MismatchedEndpointType),
            115 => Some(ResponseError::UnsupportedEndpointType),
            116 => Some(ResponseError::UnknownControllerId),
            117 => Some(ResponseError::UnknownSubscriptionId),
            118 => Some(ResponseError::TelemetryTooLarge),
            119 => Some(ResponseError::InvalidRegistration),
            120 => Some(ResponseError::TransactionAbortable),
            121 => Some(ResponseError::InvalidRecordState),
            122 => Some(ResponseError::ShareSessionNotFound),
            123 => Some(ResponseError::InvalidShareSessionEpoch),
            124 => Some(ResponseError::FencedStateEpoch),
            125 => Some(ResponseError::InvalidVoterKey),
            126 => Some(ResponseError::DuplicateVoter),
            127 => Some(ResponseError::VoterNotFound),
            128 => Some(ResponseError::InvalidRegularExpression),
            129 => Some(ResponseError::RebootstrapRequired),
            130 => Some(ResponseError::StreamsInvalidTopology),
            131 => Some(ResponseError::StreamsInvalidTopologyEpoch),
            132 => Some(ResponseError::StreamsTopologyFenced),
            133 => Some(ResponseError::ShareSessionLimitReached),
            _ => Some(Self::Unknown(code)),
        }
    }

    /// Get the corresponding error code to the error
    pub fn code(&self) -> (r: i16)
        ensures
            r == self.code_of(),
    {
        match *self {
            ResponseError::Unknown(code) => code,
            ResponseError::UnknownServerError => -1i16,
            ResponseError::OffsetOutOfRange => 1,
            ResponseError::CorruptMessage => 2,
            ResponseError::UnknownTopicOrPartition => 3,
            ResponseError::InvalidFetchSize => 4,
            ResponseError::LeaderNotAvailable => 5,
            ResponseError::NotLeaderOrFollower => 6,
            ResponseError::RequestTimedOut => 7,
            ResponseError::BrokerNotAvailable => 8,
            ResponseError::ReplicaNotAvailable => 9,
            ResponseError::MessageTooLarge => 10,
            ResponseError::StaleControllerEpoch => 11,
            ResponseError::OffsetMetadataTooLarge => 12,
            ResponseError::NetworkException => 13,
            ResponseError::CoordinatorLoadInProgress => 14,
            ResponseError::CoordinatorNotAvailable => 15,
            ResponseError::NotCoordinator => 16,
            ResponseError::InvalidTopicException => 17,
            ResponseError::RecordListTooLarge => 18,
            ResponseError::NotEnoughReplicas => 19,
            ResponseError::NotEnoughReplicasAfterAppend => 20,
            ResponseError::InvalidRequiredAcks => 21,
            ResponseError::IllegalGeneration => 22,
            ResponseError::InconsistentGroupProtocol => 23,
            ResponseError::InvalidGroupId => 24,
            ResponseError::UnknownMemberId => 25,
            ResponseError::InvalidSessionTimeout => 26,
            ResponseError::RebalanceInProgress => 27,
            ResponseError::InvalidCommitOffsetSize => 28,
            ResponseError::TopicAuthorizationFailed => 29,
            ResponseError::GroupAuthorizationFailed => 30,
            ResponseError::ClusterAuthorizationFailed => 31,
            ResponseError::InvalidTimestamp => 32,
            ResponseError::UnsupportedSaslMechanism => 33,
            ResponseError::IllegalSaslState => 34,
            ResponseError::UnsupportedVersion => 35,
            ResponseError::TopicAlreadyExists => 36,
            ResponseError::InvalidPartitions => 37,
            ResponseError::InvalidReplicationFactor => 38,
            ResponseError::InvalidReplicaAssignment => 39,
            ResponseError::InvalidConfig => 40,
            ResponseError::NotController => 41,
            ResponseError::InvalidRequest => 42,
            ResponseError::UnsupportedForMessageFormat => 43,
            ResponseError::PolicyViolation => 44,
            ResponseError::OutOfOrderSequenceNumber => 45,
            ResponseError::DuplicateSequenceNumber => 46,
            ResponseError::InvalidProducerEpoch => 47,
            ResponseError::InvalidTxnState => 48,
            ResponseError::InvalidProducerIdMapping => 49,
            ResponseError::InvalidTransactionTimeout => 50,
            ResponseError::ConcurrentTransactions => 51,
            ResponseError::TransactionCoordinatorFenced => 52,
            ResponseError::TransactionalIdAuthorizationFailed => 53,
            ResponseError::SecurityDisabled => 54,
            ResponseError::OperationNotAttempted => 55,
            ResponseError::KafkaStorageError => 56,
            ResponseError::LogDirNotFound => 57,
            ResponseError::SaslAuthenticationFailed => 58,
            ResponseError::UnknownProducerId => 59,
            ResponseError::ReassignmentInProgress => 60,
            ResponseError::DelegationTokenAuthDisabled => 61,
            ResponseError::DelegationTokenNotFound => 62,
            ResponseError::DelegationTokenOwnerMismatch => 63,
            ResponseError::DelegationTokenRequestNotAllowed => 64,
            ResponseError::DelegationTokenAuthorizationFailed => 65,
            ResponseError::DelegationTokenExpired => 66,
            ResponseError::InvalidPrincipalType => 67,
            ResponseError::NonEmptyGroup => 68,
            ResponseError::GroupIdNotFound => 69,
            ResponseError::FetchSessionIdNotFound => 70,
            ResponseError::InvalidFetchSessionEpoch => 71,
            ResponseError::ListenerNotFound => 72,
            ResponseError::TopicDeletionDisabled => 73,
            ResponseError::FencedLeaderEpoch => 74,
            ResponseError::UnknownLeaderEpoch => 75,
            ResponseError::UnsupportedCompressionType => 76,
            ResponseError::StaleBrokerEpoch => 77,
            ResponseError::OffsetNotAvailable => 78,
            ResponseError::MemberIdRequired => 79,
            ResponseError::PreferredLeaderNotAvailable => 80,
            ResponseError::GroupMaxSizeReached => 81,
            ResponseError::FencedInstanceId => 82,
            ResponseError::EligibleLeadersNotAvailable => 83,
            ResponseError::ElectionNotNeeded => 84,
            ResponseError::NoReassignmentInProgress => 85,
            ResponseError::GroupSubscribedToTopic => 86,
            ResponseError::InvalidRecord => 87,
            ResponseError::UnstableOffsetCommit => 88,
            ResponseError::ThrottlingQuotaExceeded => 89,
            ResponseError::ProducerFenced => 90,
            ResponseError::ResourceNotFound => 91,
            ResponseError::DuplicateResource => 92,
            ResponseError::UnacceptableCredential => 93,
            ResponseError::InconsistentVoterSet => 94,
            ResponseError::InvalidUpdateVersion => 95,
            ResponseError::FeatureUpdateFailed => 96,
            ResponseError::PrincipalDeserializationFailure => 97,
            ResponseError::SnapshotNotFound => 98,
            ResponseError::PositionOutOfRange => 99,
            ResponseError::UnknownTopicId => 100,
            ResponseError::DuplicateBrokerRegistration => 101,
            ResponseError::BrokerIdNotRegistered => 102,
            ResponseError::InconsistentTopicId => 103,
            ResponseError::InconsistentClusterId => 104,
            ResponseError::TransactionalIdNotFound => 105,
            ResponseError::FetchSessionTopicIdError => 106,
            ResponseError::IneligibleReplica => 107,
            ResponseError::NewLeaderElected => 108,
            ResponseError::OffsetMovedToTieredStorage => 109,
            ResponseError::FencedMemberEpoch => 110,
            ResponseError::UnreleasedInstanceId => 111,
            ResponseError::UnsupportedAssignor => 112,
            ResponseError::StaleMemberEpoch => 113,
            ResponseError::MismatchedEndpointType => 114,
            ResponseError::UnsupportedEndpointType => 115,
            ResponseError::UnknownControllerId => 116,
            ResponseError::UnknownSubscriptionId => 117,
            ResponseError::TelemetryTooLarge => 118,
            ResponseError::InvalidRegistration => 119,
            ResponseError::TransactionAbortable => 120,
            ResponseError::InvalidRecordState => 121,
            ResponseError::ShareSessionNotFound => 122,
            ResponseError::InvalidShareSessionEpoch => 123,
            ResponseError::FencedStateEpoch => 124,
            ResponseError::InvalidVoterKey => 125,
            ResponseError::DuplicateVoter => 126,
            ResponseError::VoterNotFound => 127,
            ResponseError::InvalidRegularExpression => 128,
            ResponseError::RebootstrapRequired => 129,
            ResponseError::StreamsInvalidTopology => 130,
            ResponseError::StreamsInvalidTopologyEpoch => 131,
            ResponseError::StreamsTopologyFenced => 132,
            ResponseError::ShareSessionLimitReached => 133,
        }
    }

    /// Check if is it a retriable error.
    ///
    /// Whether an error is retriable or not is defined by the Kafka protocol.
    pub fn is_retriable(&self) -> (r: bool)
        ensures
            r == self.retriable(),
    {
        match *self {
            // Client-side unknown mark as non-retriable
            ResponseError::Unknown(_) => false,
            ResponseError::UnknownServerError => false,
            ResponseError::OffsetOutOfRange => false,
            ResponseError::CorruptMessage => true,
            ResponseError::UnknownTopicOrPartition => true,
            ResponseError::InvalidFetchSize => false,
            ResponseError::LeaderNotAvailable => true,
            ResponseError::NotLeaderOrFollower => true,
            ResponseError::RequestTimedOut => true,
            ResponseError::BrokerNotAvailable => false,
            ResponseError::ReplicaNotAvailable => true,
            ResponseError::MessageTooLarge => false,
            ResponseError::StaleControllerEpoch => false,
            ResponseError::OffsetMetadataTooLarge => false,
            ResponseError::NetworkException => true,
            ResponseError::CoordinatorLoadInProgress => true,
            ResponseError::CoordinatorNotAvailable => true,
            ResponseError::NotCoordinator => true,
            ResponseError::InvalidTopicException => false,
            ResponseError::RecordListTooLarge => false,
            ResponseError::NotEnoughReplicas => true,
            ResponseError::NotEnoughReplicasAfterAppend => true,
            ResponseError::InvalidRequiredAcks => false,
            ResponseError::IllegalGeneration => false,
            ResponseError::InconsistentGroupProtocol => false,
            ResponseError::InvalidGroupId => false,
            ResponseError::UnknownMemberId => false,
            ResponseError::InvalidSessionTimeout => false,
            ResponseError::RebalanceInProgress => false,
            ResponseError::InvalidCommitOffsetSize => false,
            ResponseError::TopicAuthorizationFailed => false,
            ResponseError::GroupAuthorizationFailed => false,
            ResponseError::ClusterAuthorizationFailed => false,
            ResponseError::InvalidTimestamp => false,
            ResponseError::UnsupportedSaslMechanism => false,
            ResponseError::IllegalSaslState => false,
            ResponseError::UnsupportedVersion => false,
            ResponseError::TopicAlreadyExists => false,
            ResponseError::InvalidPartitions => false,
            ResponseError::InvalidReplicationFactor => false,
            ResponseError::InvalidReplicaAssignment => false,
            ResponseError::InvalidConfig => false,
            ResponseError::NotController => true,
            ResponseError::InvalidRequest => false,
            ResponseError::UnsupportedForMessageFormat => false,
            ResponseError::PolicyViolation => false,
            ResponseError::OutOfOrderSequenceNumber => false,
            ResponseError::DuplicateSequenceNumber => false,
            ResponseError::InvalidProducerEpoch => false,
            ResponseError::InvalidTxnState => false,
            ResponseError::InvalidProducerIdMapping => false,
            ResponseError::InvalidTransactionTimeout => false,
            ResponseError::ConcurrentTransactions => false,
            ResponseError::TransactionCoordinatorFenced => false,
            ResponseError::TransactionalIdAuthorizationFailed => false,
            ResponseError::SecurityDisabled => false,
            ResponseError::OperationNotAttempted => false,
            ResponseError::KafkaStorageError => true,
            ResponseError::LogDirNotFound => false,
            ResponseError::SaslAuthenticationFailed => false,
            ResponseError::UnknownProducerId => false,
            ResponseError::ReassignmentInProgress => false,
            ResponseError::DelegationTokenAuthDisabled => false,
            ResponseError::DelegationTokenNotFound => false,
            ResponseError::DelegationTokenOwnerMismatch => false,
            ResponseError::DelegationTokenRequestNotAllowed => false,
            ResponseError::DelegationTokenAuthorizationFailed => false,
            ResponseError::DelegationTokenExpired => false,
            ResponseError::InvalidPrincipalType => false,
            ResponseError::NonEmptyGroup => false,
            ResponseError::GroupIdNotFound => false,
            ResponseError::FetchSessionIdNotFound => true,
            ResponseError::InvalidFetchSessionEpoch => true,
            ResponseError::ListenerNotFound => true,
            ResponseError::TopicDeletionDisabled => false,
            ResponseError::FencedLeaderEpoch => true,
            ResponseError::UnknownLeaderEpoch => true,
            ResponseError::UnsupportedCompressionType => false,
            ResponseError::StaleBrokerEpoch => false,
            ResponseError::OffsetNotAvailable => true,
            ResponseError::MemberIdRequired => false,
            ResponseError::PreferredLeaderNotAvailable => true,
            ResponseError::GroupMaxSizeReached => false,
            ResponseError::FencedInstanceId => false,
            ResponseError::EligibleLeadersNotAvailable => true,
            ResponseError::ElectionNotNeeded => true,
            ResponseError::NoReassignmentInProgress => false,
            ResponseError::GroupSubscribedToTopic => false,
            ResponseError::InvalidRecord => false,
            ResponseError::UnstableOffsetCommit => true,
            ResponseError::ThrottlingQuotaExceeded => true,
            ResponseError::ProducerFenced => false,
            ResponseError::ResourceNotFound => false,
            ResponseError::DuplicateResource => false,
            ResponseError::UnacceptableCredential => false,
            ResponseError::InconsistentVoterSet => false,
            ResponseError::InvalidUpdateVersion => false,
            ResponseError::FeatureUpdateFailed => false,
            ResponseError::PrincipalDeserializationFailure => false,
            ResponseError::SnapshotNotFound => false,
            ResponseError::PositionOutOfRange => false,
            ResponseError::UnknownTopicId => true,
            ResponseError::DuplicateBrokerRegistration => false,
            ResponseError::BrokerIdNotRegistered => false,
            ResponseError::InconsistentTopicId => true,
            ResponseError::InconsistentClusterId => false,
            ResponseError::TransactionalIdNotFound => false,
            ResponseError::FetchSessionTopicIdError => true,
            ResponseError::IneligibleReplica => false,
            ResponseError::NewLeaderElected => false,
            ResponseError::OffsetMovedToTieredStorage => false,
            ResponseError::FencedMemberEpoch => false,
            ResponseError::UnreleasedInstanceId => false,
            ResponseError::UnsupportedAssignor => false,
            ResponseError::StaleMemberEpoch => false,
            ResponseError::MismatchedEndpointType => false,
            ResponseError::UnsupportedEndpointType => false,
            ResponseError::UnknownControllerId => false,
            ResponseError::UnknownSubscriptionId => false,
            ResponseError::TelemetryTooLarge => false,
            ResponseError::InvalidRegistration => false,
            ResponseError::TransactionAbortable => false,
            ResponseError::InvalidRecordState => false,
            ResponseError::ShareSessionNotFound => true,
            ResponseError::InvalidShareSessionEpoch => true,
            ResponseError::FencedStateEpoch => false,
            ResponseError::InvalidVoterKey => false,
            ResponseError::DuplicateVoter => false,
            ResponseError::VoterNotFound => false,
            ResponseError::InvalidRegularExpression => false,
            ResponseError::RebootstrapRequired => false,
            ResponseError::StreamsInvalidTopology => false,
            ResponseError::StreamsInvalidTopologyEpoch => false,
            ResponseError::StreamsTopologyFenced => false,
            ResponseError::ShareSessionLimitReached => true,
        }
    }

    /// The name of the error, or the code of an `Unknown` one.
    pub fn try_as_str(&self) -> (r: Result<&'static str, i16>)
        ensures
            r == (match *self {
                ResponseError::Unknown(code) => Err(code),
                _ => Ok(self.name()),
            }),
    {
        match *self {
            ResponseError::Unknown(code) => Err(code),
            ResponseError::UnknownServerError => Ok("UnknownServerError"),
            ResponseError::OffsetOutOfRange => Ok("OffsetOutOfRange"),
            ResponseError::CorruptMessage => Ok("CorruptMessage"),
            ResponseError::UnknownTopicOrPartition => Ok("UnknownTopicOrPartition"),
            ResponseError::InvalidFetchSize => Ok("InvalidFetchSize"),
            ResponseError::LeaderNotAvailable => Ok("LeaderNotAvailable"),
            ResponseError::NotLeaderOrFollower => Ok("NotLeaderOrFollower"),
            ResponseError::RequestTimedOut => Ok("RequestTimedOut"),
            ResponseError::BrokerNotAvailable => Ok("BrokerNotAvailable"),
            ResponseError::ReplicaNotAvailable => Ok("ReplicaNotAvailable"),
            ResponseError::MessageTooLarge => Ok("MessageTooLarge"),
            ResponseError::StaleControllerEpoch => Ok("StaleControllerEpoch"),
            ResponseError::OffsetMetadataTooLarge => Ok("OffsetMetadataTooLarge"),
            ResponseError::NetworkException => Ok("NetworkException"),
            ResponseError::CoordinatorLoadInProgress => Ok("CoordinatorLoadInProgress"),
            ResponseError::CoordinatorNotAvailable => Ok("CoordinatorNotAvailable"),
            ResponseError::NotCoordinator => Ok("NotCoordinator"),
            ResponseError::InvalidTopicException => Ok("InvalidTopicException"),
            ResponseError::RecordListTooLarge => Ok("RecordListTooLarge"),
            ResponseError::NotEnoughReplicas => Ok("NotEnoughReplicas"),
            ResponseError::NotEnoughReplicasAfterAppend => Ok("NotEnoughReplicasAfterAppend"),
            ResponseError::InvalidRequiredAcks => Ok("InvalidRequiredAcks"),
            ResponseError::IllegalGeneration => Ok("IllegalGeneration"),
            ResponseError::InconsistentGroupProtocol => Ok("InconsistentGroupProtocol"),
            ResponseError::InvalidGroupId => Ok("InvalidGroupId"),
            ResponseError::UnknownMemberId => Ok("UnknownMemberId"),
            ResponseError::InvalidSessionTimeout => Ok("InvalidSessionTimeout"),
            ResponseError::RebalanceInProgress => Ok("RebalanceInProgress"),
            ResponseError::InvalidCommitOffsetSize => Ok("InvalidCommitOffsetSize"),
            ResponseError::TopicAuthorizationFailed => Ok("TopicAuthorizationFailed"),
            ResponseError::GroupAuthorizationFailed => Ok("GroupAuthorizationFailed"),
            ResponseError::ClusterAuthorizationFailed => Ok("ClusterAuthorizationFailed"),
            ResponseError::InvalidTimestamp => Ok("InvalidTimestamp"),
            ResponseError::UnsupportedSaslMechanism => Ok("UnsupportedSaslMechanism"),
            ResponseError::IllegalSaslState => Ok("IllegalSaslState"),
            ResponseError::UnsupportedVersion => Ok("UnsupportedVersion"),
            ResponseError::TopicAlreadyExists => Ok("TopicAlreadyExists"),
            ResponseError::InvalidPartitions => Ok("InvalidPartitions"),
            ResponseError::InvalidReplicationFactor => Ok("InvalidReplicationFactor"),
            ResponseError::InvalidReplicaAssignment => Ok("InvalidReplicaAssignment"),
            ResponseError::InvalidConfig => Ok("InvalidConfig"),
            ResponseError::NotController => Ok("NotController"),
            ResponseError::InvalidRequest => Ok("InvalidRequest"),
            ResponseError::UnsupportedForMessageFormat => Ok("UnsupportedForMessageFormat"),
            ResponseError::PolicyViolation => Ok("PolicyViolation"),
            ResponseError::OutOfOrderSequenceNumber => Ok("OutOfOrderSequenceNumber"),
            ResponseError::DuplicateSequenceNumber => Ok("DuplicateSequenceNumber"),
            ResponseError::InvalidProducerEpoch => Ok("InvalidProducerEpoch"),
            ResponseError::InvalidTxnState => Ok("InvalidTxnState"),
            ResponseError::InvalidProducerIdMapping => Ok("InvalidProducerIdMapping"),
            ResponseError::InvalidTransactionTimeout => Ok("InvalidTransactionTimeout"),
            ResponseError::ConcurrentTransactions => Ok("ConcurrentTransactions"),
            ResponseError::TransactionCoordinatorFenced => Ok("TransactionCoordinatorFenced"),
            ResponseError::TransactionalIdAuthorizationFailed => Ok("TransactionalIdAuthorizationFailed"),
            ResponseError::SecurityDisabled => Ok("SecurityDisabled"),
            ResponseError::OperationNotAttempted => Ok("OperationNotAttempted"),
            ResponseError::KafkaStorageError => Ok("KafkaStorageError"),
            ResponseError::LogDirNotFound => Ok("LogDirNotFound"),
            ResponseError::SaslAuthenticationFailed => Ok("SaslAuthenticationFailed"),
            ResponseError::UnknownProducerId => Ok("UnknownProducerId"),
            ResponseError::ReassignmentInProgress => Ok("ReassignmentInProgress"),
            ResponseError::DelegationTokenAuthDisabled => Ok("DelegationTokenAuthDisabled"),
            ResponseError::DelegationTokenNotFound => Ok("DelegationTokenNotFound"),
            ResponseError::DelegationTokenOwnerMismatch => Ok("DelegationTokenOwnerMismatch"),
            ResponseError::DelegationTokenRequestNotAllowed => Ok("DelegationTokenRequestNotAllowed"),
            ResponseError::DelegationTokenAuthorizationFailed => Ok("DelegationTokenAuthorizationFailed"),
            ResponseError::DelegationTokenExpired => Ok("DelegationTokenExpired"),
            ResponseError::InvalidPrincipalType => Ok("InvalidPrincipalType"),
            ResponseError::NonEmptyGroup => Ok("NonEmptyGroup"),
            ResponseError::GroupIdNotFound => Ok("GroupIdNotFound"),
            ResponseError::FetchSessionIdNotFound => Ok("FetchSessionIdNotFound"),
            ResponseError::InvalidFetchSessionEpoch => Ok("InvalidFetchSessionEpoch"),
            ResponseError::ListenerNotFound => Ok("ListenerNotFound"),
            ResponseError::TopicDeletionDisabled => Ok("TopicDeletionDisabled"),
            ResponseError::FencedLeaderEpoch => Ok("FencedLeaderEpoch"),
            ResponseError::UnknownLeaderEpoch => Ok("UnknownLeaderEpoch"),
            ResponseError::UnsupportedCompressionType => Ok("UnsupportedCompressionType"),
            ResponseError::StaleBrokerEpoch => Ok("StaleBrokerEpoch"),
            ResponseError::OffsetNotAvailable => Ok("OffsetNotAvailable"),
            ResponseError::MemberIdRequired => Ok("MemberIdRequired"),
            ResponseError::PreferredLeaderNotAvailable => Ok("PreferredLeaderNotAvailable"),
            ResponseError::GroupMaxSizeReached => Ok("GroupMaxSizeReached"),
            ResponseError::FencedInstanceId => Ok("FencedInstanceId"),
            ResponseError::EligibleLeadersNotAvailable => Ok("EligibleLeadersNotAvailable"),
            ResponseError::ElectionNotNeeded => Ok("ElectionNotNeeded"),
            ResponseError::NoReassignmentInProgress => Ok("NoReassignmentInProgress"),
            ResponseError::GroupSubscribedToTopic => Ok("GroupSubscribedToTopic"),
            ResponseError::InvalidRecord => Ok("InvalidRecord"),
            ResponseError::UnstableOffsetCommit => Ok("UnstableOffsetCommit"),
            ResponseError::ThrottlingQuotaExceeded => Ok("ThrottlingQuotaExceeded"),
            ResponseError::ProducerFenced => Ok("ProducerFenced"),
            ResponseError::ResourceNotFound => Ok("ResourceNotFound"),
            ResponseError::DuplicateResource => Ok("DuplicateResource"),
            ResponseError::UnacceptableCredential => Ok("UnacceptableCredential"),
            ResponseError::InconsistentVoterSet => Ok("InconsistentVoterSet"),
            ResponseError::InvalidUpdateVersion => Ok("InvalidUpdateVersion"),
            ResponseError::FeatureUpdateFailed => Ok("FeatureUpdateFailed"),
            ResponseError::PrincipalDeserializationFailure => Ok("PrincipalDeserializationFailure"),
            ResponseError::SnapshotNotFound => Ok("SnapshotNotFound"),
            ResponseError::PositionOutOfRange => Ok("PositionOutOfRange"),
            ResponseError::UnknownTopicId => Ok("UnknownTopicId"),
            ResponseError::DuplicateBrokerRegistration => Ok("DuplicateBrokerRegistration"),
            ResponseError::BrokerIdNotRegistered => Ok("BrokerIdNotRegistered"),
            ResponseError::InconsistentTopicId => Ok("InconsistentTopicId"),
            ResponseError::InconsistentClusterId => Ok("InconsistentClusterId"),
            ResponseError::TransactionalIdNotFound => Ok("TransactionalIdNotFound"),
            ResponseError::FetchSessionTopicIdError => Ok("FetchSessionTopicIdError"),
            ResponseError::IneligibleReplica => Ok("IneligibleReplica"),
            ResponseError::NewLeaderElected => Ok("NewLeaderElected"),
            ResponseError::OffsetMovedToTieredStorage => Ok("OffsetMovedToTieredStorage"),
            ResponseError::FencedMemberEpoch => Ok("FencedMemberEpoch"),
            ResponseError::UnreleasedInstanceId => Ok("UnreleasedInstanceId"),
            ResponseError::UnsupportedAssignor => Ok("UnsupportedAssignor"),
            ResponseError::StaleMemberEpoch => Ok("StaleMemberEpoch"),
            ResponseError::MismatchedEndpointType => Ok("MismatchedEndpointType"),
            ResponseError::UnsupportedEndpointType => Ok("UnsupportedEndpointType"),
            ResponseError::UnknownControllerId => Ok("UnknownControllerId"),
            ResponseError::UnknownSubscriptionId => Ok("UnknownSubscriptionId"),
            ResponseError::TelemetryTooLarge => Ok("TelemetryTooLarge"),
            ResponseError::InvalidRegistration => Ok("InvalidRegistration"),
            ResponseError::TransactionAbortable => Ok("TransactionAbortable"),
            ResponseError::InvalidRecordState => Ok("InvalidRecordState"),
            ResponseError::ShareSessionNotFound => Ok("ShareSessionNotFound"),
            ResponseError::InvalidShareSessionEpoch => Ok("InvalidShareSessionEpoch"),
            ResponseError::FencedStateEpoch => Ok("FencedStateEpoch"),
            ResponseError::InvalidVoterKey => Ok("InvalidVoterKey"),
            ResponseError::DuplicateVoter => Ok("DuplicateVoter"),
            ResponseError::VoterNotFound => Ok("VoterNotFound"),
            ResponseError::InvalidRegularExpression => Ok("InvalidRegularExpression"),
            ResponseError::RebootstrapRequired => Ok("RebootstrapRequired"),
            ResponseError::StreamsInvalidTopology => Ok("StreamsInvalidTopology"),
            ResponseError::StreamsInvalidTopologyEpoch => Ok("StreamsInvalidTopologyEpoch"),
            ResponseError::StreamsTopologyFenced => Ok("StreamsTopologyFenced"),
            ResponseError::ShareSessionLimitReached => Ok("ShareSessionLimitReached"),
        }
    }
}

proof fn lemma_named_from_code(e: ResponseError)
    requires
        !(e is Unknown),
    ensures
        ResponseError::is_known_code(e.code_of()),
        ResponseError::named_from_code(e.code_of()) == e,
{
}

/// An error code stands for exactly one outcome.
pub proof fn lemma_decodes_unique(code: i16, r1: Option<ResponseError>, r2: Option<ResponseError>)
    requires
        ResponseError::decodes(code, r1),
        ResponseError::decodes(code, r2),
    ensures
        r1 == r2,
{
    if let (Some(e1), Some(e2)) = (r1, r2) {
        if ResponseError::is_known_code(code) {
            lemma_named_from_code(e1);
            lemma_named_from_code(e2);
        }
    }
}

/// The code of an error decodes back to that error, for every error of the
/// protocol and for an `Unknown` whose code is neither `0` nor one of theirs.
pub proof fn lemma_code_round_trip(e: ResponseError)
    requires
        e is Unknown ==> e.code_of() != 0 && !ResponseError::is_known_code(e.code_of()),
    ensures
        ResponseError::decodes(e.code_of(), Some(e)),
{
    if !(e is Unknown) {
        lemma_named_from_code(e);
    }
}

/// `0` is the one code that means success: it is ok exactly when it decodes
/// to no error.
pub proof fn lemma_ok_exactly_when_no_error(code: i16, r: Option<ResponseError>)
    requires
        ResponseError::decodes(code, r),
    ensures
        (code == 0) <==> r is None,
{
}

/// The name that the Kafka protocol gives the error with code `code`, for a
/// code of the protocol.
pub open spec fn protocol_name(code: i16) -> &'static str {
    match code {
        -1 => "UnknownServerError",
        1 => "OffsetOutOfRange",
        2 => "CorruptMessage",
        3 => "UnknownTopicOrPartition",
        4 => "InvalidFetchSize",
        5 => "LeaderNotAvailable",
        6 => "NotLeaderOrFollower",
        7 => "RequestTimedOut",
        8 => "BrokerNotAvailable",
        9 => "ReplicaNotAvailable",
        10 => "MessageTooLarge",
        11 => "StaleControllerEpoch",
        12 => "OffsetMetadataTooLarge",
        13 => "NetworkException",
        14 => "CoordinatorLoadInProgress",
        15 => "CoordinatorNotAvailable",
        16 => "NotCoordinator",
        17 => "InvalidTopicException",
        18 => "RecordListTooLarge",
        19 => "NotEnoughReplicas",
        20 => "NotEnoughReplicasAfterAppend",
        21 => "InvalidRequiredAcks",
        22 => "IllegalGeneration",
        23 => "InconsistentGroupProtocol",
        24 => "InvalidGroupId",
        25 => "UnknownMemberId",
        26 => "InvalidSessionTimeout",
        27 => "RebalanceInProgress",
        28 => "InvalidCommitOffsetSize",
        29 => "TopicAuthorizationFailed",
        30 => "GroupAuthorizationFailed",
        31 => "ClusterAuthorizationFailed",
        32 => "InvalidTimestamp",
        33 => "UnsupportedSaslMechanism",
        34 => "IllegalSaslState",
        35 => "UnsupportedVersion",
        36 => "TopicAlreadyExists",
        37 => "InvalidPartitions",
        38 => "InvalidReplicationFactor",
        39 => "InvalidReplicaAssignment",
        40 => "InvalidConfig",
        41 => "NotController",
        42 => "InvalidRequest",
        43 => "UnsupportedForMessageFormat",
        44 => "PolicyViolation",
        45 => "OutOfOrderSequenceNumber",
        46 => "DuplicateSequenceNumber",
        47 => "InvalidProducerEpoch",
        48 => "InvalidTxnState",
        49 => "InvalidProducerIdMapping",
        50 => "InvalidTransactionTimeout",
        51 => "ConcurrentTransactions",
        52 => "TransactionCoordinatorFenced",
        53 => "TransactionalIdAuthorizationFailed",
        54 => "SecurityDisabled",
        55 => "OperationNotAttempted",
        56 => "KafkaStorageError",
        57 => "LogDirNotFound",
        58 => "SaslAuthenticationFailed",
        59 => "UnknownProducerId",
        60 => "ReassignmentInProgress",
        61 => "DelegationTokenAuthDisabled",
        62 => "DelegationTokenNotFound",
        63 => "DelegationTokenOwnerMismatch",
        64 => "DelegationTokenRequestNotAllowed",
        65 => "DelegationTokenAuthorizationFailed",
        66 => "DelegationTokenExpired",
        67 => "InvalidPrincipalType",
        68 => "NonEmptyGroup",
        69 => "GroupIdNotFound",
        70 => "FetchSessionIdNotFound",
        71 => "InvalidFetchSessionEpoch",
        72 => "ListenerNotFound",
        73 => "TopicDeletionDisabled",
        74 => "FencedLeaderEpoch",
        75 => "UnknownLeaderEpoch",
        76 => "UnsupportedCompressionType",
        77 => "StaleBrokerEpoch",
        78 => "OffsetNotAvailable",
        79 => "MemberIdRequired",
        80 => "PreferredLeaderNotAvailable",
        81 => "GroupMaxSizeReached",
        82 => "FencedInstanceId",
        83 => "EligibleLeadersNotAvailable",
        84 => "ElectionNotNeeded",
        85 => "NoReassignmentInProgress",
        86 => "GroupSubscribedToTopic",
        87 => "InvalidRecord",
        88 => "UnstableOffsetCommit",
        89 => "ThrottlingQuotaExceeded",
        90 => "ProducerFenced",
        91 => "ResourceNotFound",
        92 => "DuplicateResource",
        93 => "UnacceptableCredential",
        94 => "InconsistentVoterSet",
        95 => "InvalidUpdateVersion",
        96 => "FeatureUpdateFailed",
        97 => "PrincipalDeserializationFailure",
        98 => "SnapshotNotFound",
        99 => "PositionOutOfRange",
        100 => "UnknownTopicId",
        101 => "DuplicateBrokerRegistration",
        102 => "BrokerIdNotRegistered",
        103 => "InconsistentTopicId",
        104 => "InconsistentClusterId",
        105 => "TransactionalIdNotFound",
        106 => "FetchSessionTopicIdError",
        107 => "IneligibleReplica",
        108 => "NewLeaderElected",
        109 => "OffsetMovedToTieredStorage",
        110 => "FencedMemberEpoch",
        111 => "UnreleasedInstanceId",
        112 => "UnsupportedAssignor",
        113 => "StaleMemberEpoch",
        114 => "MismatchedEndpointType",
        115 => "UnsupportedEndpointType",
        116 => "UnknownControllerId",
        117 => "UnknownSubscriptionId",
        118 => "TelemetryTooLarge",
        119 => "InvalidRegistration",
        120 => "TransactionAbortable",
        121 => "InvalidRecordState",
        122 => "ShareSessionNotFound",
        123 => "InvalidShareSessionEpoch",
        124 => "FencedStateEpoch",
        125 => "InvalidVoterKey",
        126 => "DuplicateVoter",
        127 => "VoterNotFound",
        128 => "InvalidRegularExpression",
        129 => "RebootstrapRequired",
        130 => "StreamsInvalidTopology",
        131 => "StreamsInvalidTopologyEpoch",
        132 => "StreamsTopologyFenced",
        133 => "ShareSessionLimitReached",
        _ => "Unknown",
    }
}

/// The codes of the errors that the Kafka protocol marks retriable.
pub open spec fn protocol_retriable(code: i16) -> bool {
    code == 2 || code == 3 || code == 5 || code == 6 || code == 7 || code == 9 || code == 13 || code == 14 || code == 15 || code == 16 || code == 19 || code == 20 || code == 41 || code == 56 || code == 70 || code == 71 || code == 72 || code == 74 || code == 75 || code == 78 || code == 80 || code == 83 || code == 84 || code == 88 || code == 89 || code == 100 || code == 103 || code == 106 || code == 122 || code == 123 || code == 133
}

/// What an error code decodes to agrees with the protocol's table, read by
/// code: the error has the protocol's name for the code and is retriable
/// exactly when the protocol marks the code retriable; a code outside the
/// table decodes to `Unknown` with that code, which is never retriable.
pub proof fn lemma_protocol_table(code: i16, e: ResponseError)
    requires
        ResponseError::decodes(code, Some(e)),
    ensures
        ResponseError::is_known_code(code) ==> e.name() == protocol_name(code),
        ResponseError::is_known_code(code) ==> e.retriable() == protocol_retriable(code),
        !ResponseError::is_known_code(code) ==> e == ResponseError::Unknown(code) && !e.retriable(),
{
    if ResponseError::is_known_code(code) {
        lemma_named_from_code(e);
    }
}

} // verus!
