use pf_engine::asset_server::debug_loader::DebugAsset;
use pf_engine::asset_server::debug_loader::DebugLoader;
use pf_engine::asset_server::transport::forward;
use pf_engine::asset_server::AssetError;
use pf_engine::asset_server::AssetLifecycleEvent;
use pf_engine::asset_server::AssetPath;
use pf_engine::asset_server::AssetPathId;
use pf_engine::asset_server::AssetServer;
use pf_engine::asset_server::AssetTypeId;
use pf_engine::asset_server::Handle;
use pf_engine::asset_server::HandleId;
use pf_engine::asset_server::HandleUntyped;
use pf_engine::asset_server::RefChange;
use pf_engine::asset_server::RefChangeChannel;
use std::sync::mpsc::sync_channel;

fn id(n: u64) -> HandleId {
    HandleId(AssetPathId(n))
}

fn strong(n: u64) -> Handle<DebugAsset> {
    let mut scratch = RefChangeChannel::new(1);
    HandleUntyped::strong(id(n), &mut scratch).unwrap().typed()
}

#[test]
fn forward_sends_in_order_and_empties_the_outbox() {
    let (sender, receiver) = sync_channel(8);
    let mut outbox = RefChangeChannel::new(3);
    outbox.try_send(RefChange::Increment(id(1))).unwrap();
    outbox.try_send(RefChange::Increment(id(2))).unwrap();
    outbox.try_send(RefChange::Decrement(id(1))).unwrap();
    assert_eq!(forward(&mut outbox, &sender), Ok(()));
    assert!(outbox.is_empty());
    assert_eq!(receiver.try_recv(), Ok(RefChange::Increment(id(1))));
    assert_eq!(receiver.try_recv(), Ok(RefChange::Increment(id(2))));
    assert_eq!(receiver.try_recv(), Ok(RefChange::Decrement(id(1))));
    assert!(receiver.try_recv().is_err());
    assert_eq!(forward(&mut outbox, &sender), Ok(()));
}

#[test]
fn forward_keeps_what_it_could_not_send() {
    let (sender, receiver) = sync_channel(8);
    drop(receiver);
    let mut outbox = RefChangeChannel::new(3);
    outbox.try_send(RefChange::Increment(id(1))).unwrap();
    outbox.try_send(RefChange::Decrement(id(1))).unwrap();
    assert_eq!(forward(&mut outbox, &sender), Err(AssetError::ChannelDisconnected));
    assert_eq!(outbox.len(), 2);
    assert_eq!(outbox.peek(), Some(RefChange::Increment(id(1))));
    assert!(AssetError::ChannelDisconnected.is_protocol_error());
    let mut empty = RefChangeChannel::new(3);
    assert_eq!(forward(&mut empty, &sender), Ok(()));
}

#[test]
fn handles_announce_themselves_on_the_channel() {
    let (sender, receiver) = sync_channel(8);
    let handle = strong(4);
    let other_sender = sender.clone();
    let clone = handle.clone_on(&other_sender).unwrap();
    assert!(clone.is_strong());
    assert_eq!(clone.id(), id(4));
    handle.release_on(&other_sender).unwrap();
    drop(other_sender);
    assert_eq!(receiver.try_recv(), Ok(RefChange::Increment(id(4))));
    assert_eq!(receiver.try_recv(), Ok(RefChange::Decrement(id(4))));
    assert!(receiver.try_recv().is_err());
    clone.release_on(&sender).unwrap();
    assert_eq!(receiver.try_recv(), Ok(RefChange::Decrement(id(4))));
}

#[test]
fn weak_handles_send_nothing() {
    let (sender, receiver) = sync_channel(8);
    let weak: Handle<DebugAsset> = Handle::weak(id(5));
    let copy = weak.clone_on(&sender).unwrap();
    assert!(copy.is_weak());
    assert_eq!(copy.release_on(&sender), Ok(()));
    assert!(receiver.try_recv().is_err());
    drop(receiver);
    let again = weak.clone_on(&sender).unwrap();
    assert_eq!(again.release_on(&sender), Ok(()));
    assert_eq!(weak.release_on(&sender), Ok(()));
}

#[test]
fn strong_handles_report_a_disconnected_channel() {
    let (sender, receiver) = sync_channel(8);
    drop(receiver);
    let handle = strong(6);
    assert_eq!(handle.clone_on(&sender).err(), Some(AssetError::ChannelDisconnected));
    assert_eq!(handle.release_on(&sender), Err(AssetError::ChannelDisconnected));
}

fn debug_server() -> (AssetServer<DebugLoader<'static>>, pf_engine::asset_server::Assets<DebugAsset>)
{
    let mut server = AssetServer::new();
    let assets = server.register_asset::<DebugAsset>().unwrap();
    server.add_loader(DebugLoader::new(&["dbg"])).unwrap();
    (server, assets)
}

#[test]
fn the_server_counts_what_arrives_on_the_channel() {
    let (sender, receiver) = sync_channel(4);
    let (mut server, mut assets) = debug_server();
    let handle = server.load::<DebugAsset>(&AssetPath::from("probe.dbg"), &mut assets).unwrap();
    let asset_id = handle.id();
    assert_eq!(server.receive(&receiver, usize::MAX), Ok(()));
    assert_eq!(server.ref_count(asset_id), 1);

    let other_sender = sender.clone();
    let mut clones = Vec::new();
    for round in 0..3 {
        clones.push(handle.clone_on(&other_sender).unwrap());
        assert_eq!(server.receive(&receiver, usize::MAX), Ok(()));
        assert_eq!(server.ref_count(asset_id), round + 2);
    }
    for clone in clones {
        clone.release_on(&other_sender).unwrap();
    }
    assert_eq!(server.receive(&receiver, usize::MAX), Ok(()));
    assert_eq!(server.ref_count(asset_id), 1);
    assert_eq!(server.next_free_event(AssetTypeId(<DebugAsset as pf_engine::asset_server::Asset<DebugAsset>>::TYPE_UUID)), None);

    handle.release_on(&sender).unwrap();
    assert_eq!(server.receive(&receiver, usize::MAX), Ok(()));
    assert_eq!(server.ref_count(asset_id), 0);
    assert_eq!(
        server.next_free_event(AssetTypeId(<DebugAsset as pf_engine::asset_server::Asset<DebugAsset>>::TYPE_UUID)),
        Some(AssetLifecycleEvent::Free(asset_id))
    );
}

#[test]
fn receive_takes_no_more_than_the_limit() {
    let (sender, receiver) = sync_channel(8);
    let (mut server, _assets) = debug_server();
    for _ in 0..5 {
        sender.send(RefChange::Increment(id(9))).unwrap();
    }
    assert_eq!(server.receive(&receiver, 2), Ok(()));
    assert_eq!(server.ref_count(id(9)), 2);
    assert_eq!(server.receive(&receiver, 0), Ok(()));
    assert_eq!(server.ref_count(id(9)), 2);
    assert_eq!(server.receive(&receiver, 100), Ok(()));
    assert_eq!(server.ref_count(id(9)), 5);
}

#[test]
fn receive_reports_a_disconnected_channel_once_it_is_empty() {
    let (sender, receiver) = sync_channel(8);
    let (mut server, _assets) = debug_server();
    sender.send(RefChange::Increment(id(9))).unwrap();
    drop(sender);
    assert_eq!(server.receive(&receiver, usize::MAX), Err(AssetError::ChannelDisconnected));
    assert_eq!(server.ref_count(id(9)), 1);
    assert_eq!(server.pending_changes(), 0);
}

#[test]
fn receive_stops_at_an_event_that_cannot_be_applied() {
    let (sender, receiver) = sync_channel(8);
    let (mut server, _assets) = debug_server();
    sender.send(RefChange::Increment(id(1))).unwrap();
    sender.send(RefChange::Decrement(id(2))).unwrap();
    sender.send(RefChange::Increment(id(3))).unwrap();
    assert_eq!(server.receive(&receiver, usize::MAX), Err(AssetError::CountUnderflow(id(2))));
    assert_eq!(server.ref_count(id(1)), 1);
    assert_eq!(server.ref_count(id(3)), 0);
    assert_eq!(server.pending_changes(), 1);
    assert_eq!(receiver.try_recv(), Ok(RefChange::Increment(id(3))));
}

#[test]
fn a_server_without_room_receives_nothing() {
    let (sender, receiver) = sync_channel(8);
    let mut server: AssetServer<DebugLoader<'static>> = AssetServer::with_capacity(0);
    assert_eq!(server.pending_capacity(), 0);
    sender.send(RefChange::Increment(id(1))).unwrap();
    assert_eq!(server.receive(&receiver, usize::MAX), Err(AssetError::ChannelFull));
    assert_eq!(server.ref_count(id(1)), 0);
    assert_eq!(receiver.try_recv(), Ok(RefChange::Increment(id(1))));
}

#[test]
fn a_channel_of_one_hands_every_event_on() {
    let (sender, receiver) = sync_channel(1);
    let (mut server, _assets) = debug_server();
    for sent in 0..50 {
        sender.send(RefChange::Increment(id(7))).unwrap();
        assert!(sender.try_send(RefChange::Increment(id(8))).is_err());
        assert_eq!(server.receive(&receiver, usize::MAX), Ok(()));
        assert_eq!(server.ref_count(id(7)), sent + 1);
    }
    drop(sender);
    assert_eq!(server.receive(&receiver, usize::MAX), Err(AssetError::ChannelDisconnected));
    assert_eq!(server.ref_count(id(7)), 50);
    assert_eq!(server.ref_count(id(8)), 0);
}

#[test]
fn strong_on_announces_one_increment_and_fails_only_when_disconnected() {
    let (sender, receiver) = sync_channel(2);
    let handle: Handle<DebugAsset> = HandleUntyped::strong_on(id(11), &sender).unwrap().typed();
    assert!(handle.is_strong());
    assert_eq!(handle.id(), id(11));
    assert_eq!(receiver.try_recv(), Ok(RefChange::Increment(id(11))));
    assert!(receiver.try_recv().is_err());
    drop(receiver);
    assert_eq!(
        HandleUntyped::strong_on(id(12), &sender).err(),
        Some(AssetError::ChannelDisconnected)
    );
}

#[test]
fn load_on_announces_the_handle_on_the_channel() {
    let (sender, receiver) = sync_channel(4);
    let (mut server, mut assets) = debug_server();
    let path = AssetPath::from("probe.dbg");
    let handle = server.load_on::<DebugAsset>(&path, &mut assets, &sender).unwrap();
    assert!(handle.is_strong());
    assert_eq!(handle.id(), HandleId(path.get_id()));
    assert_eq!(assets.get_asset(&handle), Some(&DebugAsset {}));
    assert_eq!(
        server.source_type(path.get_id()),
        Some(AssetTypeId(<DebugAsset as pf_engine::asset_server::Asset<DebugAsset>>::TYPE_UUID))
    );
    assert_eq!(server.pending_changes(), 0);
    assert_eq!(server.receive(&receiver, usize::MAX), Ok(()));
    assert_eq!(server.ref_count(handle.id()), 1);
    handle.release_on(&sender).unwrap();
    assert_eq!(server.receive(&receiver, usize::MAX), Ok(()));
    assert_eq!(server.ref_count(HandleId(path.get_id())), 0);
    assets.free_unused_assets(&mut server);
    assert!(!assets.contains(HandleId(path.get_id())));
}

#[test]
fn load_on_refuses_without_changing_anything() {
    let (sender, receiver) = sync_channel(4);
    let (mut server, mut assets) = debug_server();
    let unknown = AssetPath::from("probe.png");
    assert_eq!(
        server.load_on::<DebugAsset>(&unknown, &mut assets, &sender).err(),
        Some(AssetError::NoLoaderForExtension)
    );
    assert!(receiver.try_recv().is_err());
    assert_eq!(server.source_type(unknown.get_id()), None);
    drop(receiver);
    let known = AssetPath::from("probe.dbg");
    assert_eq!(
        server.load_on::<DebugAsset>(&known, &mut assets, &sender).err(),
        Some(AssetError::ChannelDisconnected)
    );
    assert!(!assets.contains(HandleId(known.get_id())));
    assert_eq!(server.source_type(known.get_id()), None);
    let mut bare: AssetServer<DebugLoader<'static>> = AssetServer::new();
    bare.add_loader(DebugLoader::new(&["dbg"])).unwrap();
    assert_eq!(
        bare.load_on::<DebugAsset>(&known, &mut assets, &sender).err(),
        Some(AssetError::AssetTypeNotRegistered(AssetTypeId(
            <DebugAsset as pf_engine::asset_server::Asset<DebugAsset>>::TYPE_UUID
        )))
    );
}

#[test]
fn record_load_stores_without_announcing() {
    let (mut server, mut assets) = debug_server();
    let type_id =
        AssetTypeId(<DebugAsset as pf_engine::asset_server::Asset<DebugAsset>>::TYPE_UUID);
    assert_eq!(server.record_load(AssetPathId(3), type_id, DebugAsset {}, &mut assets), Ok(()));
    assert!(assets.contains(id(3)));
    assert_eq!(server.source_type(AssetPathId(3)), Some(type_id));
    assert_eq!(server.pending_changes(), 0);
    assert_eq!(
        server.record_load(AssetPathId(4), AssetTypeId(1), DebugAsset {}, &mut assets),
        Err(AssetError::AssetTypeNotRegistered(AssetTypeId(1)))
    );
    assert!(!assets.contains(id(4)));
}
