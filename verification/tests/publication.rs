use fan_control_core::publication::{
    next_publication_step, validate_owned_destination, AncestorFacts, EvidenceWriteError,
    OwnedDestination, PublicationStage, PublicationStep, FIRST_PUBLICATION_STEP,
};

fn steps() -> Vec<PublicationStep> {
    let mut steps = vec![FIRST_PUBLICATION_STEP];
    while *steps.last().unwrap() != PublicationStep::Done {
        steps.push(next_publication_step(*steps.last().unwrap(), Ok(())).unwrap());
    }
    steps
}

#[test]
fn every_interruption_boundary_is_visible_exactly_after_the_link() {
    let steps = steps();
    assert_eq!(
        steps,
        [
            PublicationStep::WriteTemporary,
            PublicationStep::Observe(PublicationStage::TemporaryWritten),
            PublicationStep::SyncTemporary,
            PublicationStep::Observe(PublicationStage::TemporarySynced),
            PublicationStep::Link,
            PublicationStep::Observe(PublicationStage::DestinationPublished),
            PublicationStep::SyncDirectory,
            PublicationStep::Observe(PublicationStage::DirectorySynced),
            PublicationStep::Done,
        ]
    );
    for (index, step) in steps.iter().enumerate() {
        let error =
            next_publication_step(*step, Err("simulated interruption".to_owned())).unwrap_err();
        assert_eq!(error.destination_was_published(), index > 4);
    }
    assert_eq!(
        next_publication_step(PublicationStep::Link, Err("busy".to_owned()))
            .unwrap_err()
            .message(),
        "cannot publish evidence: busy"
    );
    assert_eq!(
        next_publication_step(PublicationStep::SyncDirectory, Err("busy".to_owned()))
            .unwrap_err()
            .message(),
        "evidence was published, but cannot sync evidence directory: busy"
    );
}

fn destination() -> OwnedDestination {
    OwnedDestination {
        effective_user: 0,
        has_parent: true,
        has_file_name: true,
        parent_is_absolute: true,
        ancestors: vec![
            Ok(AncestorFacts {
                is_symlink: false,
                is_directory: true,
                owner: 0,
                mode: 0o40700,
            }),
            Ok(AncestorFacts {
                is_symlink: false,
                is_directory: true,
                owner: 0,
                mode: 0o40755,
            }),
        ],
        opened: Ok(()),
        directory: Ok((0, 0o40700)),
        exists: Ok(false),
    }
}

#[test]
fn owned_destinations_are_private_and_fresh() {
    assert!(validate_owned_destination(&destination(), 0).is_ok());
    assert!(validate_owned_destination(&destination(), 1_000).is_err());
    let mut relative = destination();
    relative.parent_is_absolute = false;
    assert!(matches!(
        validate_owned_destination(&relative, 0),
        Err(EvidenceWriteError::InvalidDestination)
    ));
    let mut shared = destination();
    shared.ancestors[1] = Ok(AncestorFacts {
        is_symlink: false,
        is_directory: true,
        owner: 0,
        mode: 0o40775,
    });
    assert!(validate_owned_destination(&shared, 0).is_err());
    let mut link = destination();
    link.ancestors[0] = Ok(AncestorFacts {
        is_symlink: true,
        is_directory: true,
        owner: 0,
        mode: 0o40700,
    });
    assert!(validate_owned_destination(&link, 0).is_err());
    let mut taken = destination();
    taken.exists = Ok(true);
    assert!(validate_owned_destination(&taken, 0).is_err());
    let mut unopened = destination();
    unopened.opened = Err("denied".to_owned());
    assert_eq!(
        validate_owned_destination(&unopened, 0)
            .unwrap_err()
            .message(),
        "cannot open evidence directory: denied"
    );
}
